//! Kinds of file system nodes, attributes and errors that the node logic
//! hands back to the virtual file system.

use vstd::prelude::*;

verus! {

/// The kind of a file system node.
#[derive(Debug, Clone, Copy, PartialEq, Eq, Structural)]
pub enum NodeType {
    Fifo,
    CharDevice,
    Dir,
    BlockDevice,
    File,
    SymLink,
    Socket,
}

impl NodeType {
    /// The node kind that a directory entry type (`DT_*`) stands for;
    /// an unknown type stands for a regular file.
    pub open spec fn spec_from_dirent_type(t: u32) -> NodeType {
        if t == 1 {
            NodeType::Fifo
        } else if t == 2 {
            NodeType::CharDevice
        } else if t == 4 {
            NodeType::Dir
        } else if t == 6 {
            NodeType::BlockDevice
        } else if t == 10 {
            NodeType::SymLink
        } else if t == 12 {
            NodeType::Socket
        } else {
            NodeType::File
        }
    }

    /// The node kind that a directory entry type (`DT_*`) stands for.
    pub fn from_dirent_type(t: u32) -> (r: NodeType)
        ensures
            r == Self::spec_from_dirent_type(t),
    {
        if t == 1 {
            NodeType::Fifo
        } else if t == 2 {
            NodeType::CharDevice
        } else if t == 4 {
            NodeType::Dir
        } else if t == 6 {
            NodeType::BlockDevice
        } else if t == 10 {
            NodeType::SymLink
        } else if t == 12 {
            NodeType::Socket
        } else {
            NodeType::File
        }
    }
}

/// The errors that a FUSE operation reports to the virtual file system.
#[derive(Debug, Clone, Copy, PartialEq, Eq, Structural)]
pub enum FsError {
    NotFound,
    PermissionDenied,
    AlreadyExists,
    NotADirectory,
    IsADirectory,
    InvalidInput,
    FunctionNotImplemented,
}

/// The attributes that a node reports: its permission bits, kind, size and
/// block count.
#[derive(Debug, Clone, Copy, PartialEq, Eq, Structural)]
pub struct NodeAttr {
    pub perm: u16,
    pub ty: NodeType,
    pub size: u64,
    pub blocks: u64,
}

/// One entry of a directory listing: a name and the kind of node it names.
#[derive(Debug, Clone)]
pub struct DirEntry {
    pub name: Vec<u8>,
    pub ty: NodeType,
}

} // verus!
