//! The structures of the FUSE wire protocol, with their little-endian
//! encodings (`write_to`) and decodings (`read_from`).

use vstd::prelude::*;
use crate::le::{le_u16, le_u32, le_u64, le_i32, u16_at, u32_at, u64_at, i32_at, splice, push_u16, push_u32, push_u64, push_i32, read_u16, read_u32, read_u64, read_i32, copy_into, lemma_u32_roundtrip, lemma_u64_roundtrip, lemma_i32_roundtrip};
use crate::types::NodeType;

verus! {

/// The operation codes of FUSE requests.
#[allow(non_camel_case_types)]
#[derive(Debug, Clone, Copy, PartialEq, Eq, Structural)]
pub enum FuseOpcode {
    FUSE_LOOKUP,
    FUSE_FORGET,
    FUSE_GETATTR,
    FUSE_SETATTR,
    FUSE_READLINK,
    FUSE_SYMLINK,
    FUSE_MKNOD,
    FUSE_MKDIR,
    FUSE_UNLINK,
    FUSE_RMDIR,
    FUSE_RENAME,
    FUSE_LINK,
    FUSE_OPEN,
    FUSE_READ,
    FUSE_WRITE,
    FUSE_STATFS,
    FUSE_RELEASE,
    FUSE_FSYNC,
    FUSE_SETXATTR,
    FUSE_GETXATTR,
    FUSE_LISTXATTR,
    FUSE_REMOVEXATTR,
    FUSE_FLUSH,
    FUSE_INIT,
    FUSE_OPENDIR,
    FUSE_READDIR,
    FUSE_RELEASEDIR,
    FUSE_FSYNCDIR,
    FUSE_GETLK,
    FUSE_SETLK,
    FUSE_SETLKW,
    FUSE_ACCESS,
    FUSE_CREATE,
    FUSE_INTERRUPT,
    FUSE_BMAP,
    FUSE_DESTROY,
    FUSE_IOCTL,
    FUSE_POLL,
    FUSE_NOTIFY_REPLY,
    FUSE_BATCH_FORGET,
    FUSE_FALLOCATE,
    FUSE_READDIRPLUS,
    FUSE_RENAME2,
    FUSE_LSEEK,
    FUSE_COPY_FILE_RANGE,
    FUSE_SETUPMAPPING,
    FUSE_REMOVEMAPPING,
    FUSE_SYNCFS,
    FUSE_TMPFILE,
}

impl FuseOpcode {
    /// The number that stands for the operation on the wire.
    pub open spec fn spec_code(self) -> u32 {
        match self {
            FuseOpcode::FUSE_LOOKUP => 1,
            FuseOpcode::FUSE_FORGET => 2,
            FuseOpcode::FUSE_GETATTR => 3,
            FuseOpcode::FUSE_SETATTR => 4,
            FuseOpcode::FUSE_READLINK => 5,
            FuseOpcode::FUSE_SYMLINK => 6,
            FuseOpcode::FUSE_MKNOD => 8,
            FuseOpcode::FUSE_MKDIR => 9,
            FuseOpcode::FUSE_UNLINK => 10,
            FuseOpcode::FUSE_RMDIR => 11,
            FuseOpcode::FUSE_RENAME => 12,
            FuseOpcode::FUSE_LINK => 13,
            FuseOpcode::FUSE_OPEN => 14,
            FuseOpcode::FUSE_READ => 15,
            FuseOpcode::FUSE_WRITE => 16,
            FuseOpcode::FUSE_STATFS => 17,
            FuseOpcode::FUSE_RELEASE => 18,
            FuseOpcode::FUSE_FSYNC => 20,
            FuseOpcode::FUSE_SETXATTR => 21,
            FuseOpcode::FUSE_GETXATTR => 22,
            FuseOpcode::FUSE_LISTXATTR => 23,
            FuseOpcode::FUSE_REMOVEXATTR => 24,
            FuseOpcode::FUSE_FLUSH => 25,
            FuseOpcode::FUSE_INIT => 26,
            FuseOpcode::FUSE_OPENDIR => 27,
            FuseOpcode::FUSE_READDIR => 28,
            FuseOpcode::FUSE_RELEASEDIR => 29,
            FuseOpcode::FUSE_FSYNCDIR => 30,
            FuseOpcode::FUSE_GETLK => 31,
            FuseOpcode::FUSE_SETLK => 32,
            FuseOpcode::FUSE_SETLKW => 33,
            FuseOpcode::FUSE_ACCESS => 34,
            FuseOpcode::FUSE_CREATE => 35,
            FuseOpcode::FUSE_INTERRUPT => 36,
            FuseOpcode::FUSE_BMAP => 37,
            FuseOpcode::FUSE_DESTROY => 38,
            FuseOpcode::FUSE_IOCTL => 39,
            FuseOpcode::FUSE_POLL => 40,
            FuseOpcode::FUSE_NOTIFY_REPLY => 41,
            FuseOpcode::FUSE_BATCH_FORGET => 42,
            FuseOpcode::FUSE_FALLOCATE => 43,
            FuseOpcode::FUSE_READDIRPLUS => 44,
            FuseOpcode::FUSE_RENAME2 => 45,
            FuseOpcode::FUSE_LSEEK => 46,
            FuseOpcode::FUSE_COPY_FILE_RANGE => 47,
            FuseOpcode::FUSE_SETUPMAPPING => 48,
            FuseOpcode::FUSE_REMOVEMAPPING => 49,
            FuseOpcode::FUSE_SYNCFS => 50,
            FuseOpcode::FUSE_TMPFILE => 51,
        }
    }

    /// The number that stands for the operation on the wire.
    pub fn code(&self) -> (r: u32)
        ensures
            r == self.spec_code(),
    {
        match self {
            FuseOpcode::FUSE_LOOKUP => 1,
            FuseOpcode::FUSE_FORGET => 2,
            FuseOpcode::FUSE_GETATTR => 3,
            FuseOpcode::FUSE_SETATTR => 4,
            FuseOpcode::FUSE_READLINK => 5,
            FuseOpcode::FUSE_SYMLINK => 6,
            FuseOpcode::FUSE_MKNOD => 8,
            FuseOpcode::FUSE_MKDIR => 9,
            FuseOpcode::FUSE_UNLINK => 10,
            FuseOpcode::FUSE_RMDIR => 11,
            FuseOpcode::FUSE_RENAME => 12,
            FuseOpcode::FUSE_LINK => 13,
            FuseOpcode::FUSE_OPEN => 14,
            FuseOpcode::FUSE_READ => 15,
            FuseOpcode::FUSE_WRITE => 16,
            FuseOpcode::FUSE_STATFS => 17,
            FuseOpcode::FUSE_RELEASE => 18,
            FuseOpcode::FUSE_FSYNC => 20,
            FuseOpcode::FUSE_SETXATTR => 21,
            FuseOpcode::FUSE_GETXATTR => 22,
            FuseOpcode::FUSE_LISTXATTR => 23,
            FuseOpcode::FUSE_REMOVEXATTR => 24,
            FuseOpcode::FUSE_FLUSH => 25,
            FuseOpcode::FUSE_INIT => 26,
            FuseOpcode::FUSE_OPENDIR => 27,
            FuseOpcode::FUSE_READDIR => 28,
            FuseOpcode::FUSE_RELEASEDIR => 29,
            FuseOpcode::FUSE_FSYNCDIR => 30,
            FuseOpcode::FUSE_GETLK => 31,
            FuseOpcode::FUSE_SETLK => 32,
            FuseOpcode::FUSE_SETLKW => 33,
            FuseOpcode::FUSE_ACCESS => 34,
            FuseOpcode::FUSE_CREATE => 35,
            FuseOpcode::FUSE_INTERRUPT => 36,
            FuseOpcode::FUSE_BMAP => 37,
            FuseOpcode::FUSE_DESTROY => 38,
            FuseOpcode::FUSE_IOCTL => 39,
            FuseOpcode::FUSE_POLL => 40,
            FuseOpcode::FUSE_NOTIFY_REPLY => 41,
            FuseOpcode::FUSE_BATCH_FORGET => 42,
            FuseOpcode::FUSE_FALLOCATE => 43,
            FuseOpcode::FUSE_READDIRPLUS => 44,
            FuseOpcode::FUSE_RENAME2 => 45,
            FuseOpcode::FUSE_LSEEK => 46,
            FuseOpcode::FUSE_COPY_FILE_RANGE => 47,
            FuseOpcode::FUSE_SETUPMAPPING => 48,
            FuseOpcode::FUSE_REMOVEMAPPING => 49,
            FuseOpcode::FUSE_SYNCFS => 50,
            FuseOpcode::FUSE_TMPFILE => 51,
        }
    }
}

/// The header that starts every request sent to the daemon.
#[derive(Debug, Clone, Copy)]
pub struct FuseInHeader {
    pub len: u32,
    pub opcode: u32,
    pub unique: u64,
    pub nodeid: u64,
    pub uid: u32,
    pub gid: u32,
    pub pid: u32,
    pub padding: u32,
}

impl FuseInHeader {
    /// Builds the structure from its fields.
    pub fn new(len: u32, opcode: u32, unique: u64, nodeid: u64, uid: u32, gid: u32, pid: u32, padding: u32) -> (r: Self)
        ensures
            r == (FuseInHeader { len: len, opcode: opcode, unique: unique, nodeid: nodeid, uid: uid, gid: gid, pid: pid, padding: padding }),
    {
        FuseInHeader { len, opcode, unique, nodeid, uid, gid, pid, padding }
    }

    /// The 36 bytes that `write_to` stores, in wire order.
    pub open spec fn spec_bytes(&self) -> Seq<u8> {
        le_u32(self.len) + le_u32(self.opcode) + le_u64(self.unique) + le_u64(self.nodeid) + le_u32(self.uid) + le_u32(self.gid) + le_u32(self.pid)
    }

    /// The bytes of `spec_bytes` as a vector.
    pub(crate) fn to_bytes(&self) -> (v: Vec<u8>)
        ensures
            v@ == self.spec_bytes(),
            v@.len() == 36,
    {
        let mut v: Vec<u8> = Vec::new();
        push_u32(&mut v, self.len);
        push_u32(&mut v, self.opcode);
        push_u64(&mut v, self.unique);
        push_u64(&mut v, self.nodeid);
        push_u32(&mut v, self.uid);
        push_u32(&mut v, self.gid);
        push_u32(&mut v, self.pid);
        assert(v@ =~= self.spec_bytes());
        v
    }

    /// Stores the little-endian encoding in the first 36 bytes of `buf`;
    /// the rest of `buf` is left as it was.
    pub fn write_to(&self, buf: &mut [u8])
        requires
            old(buf)@.len() >= 36,
        ensures
            final(buf)@ == splice(old(buf)@, 0, self.spec_bytes()),
    {
        let v = self.to_bytes();
        copy_into(buf, 0, v.as_slice());
    }

}

/// The header that starts every reply of the daemon.
#[derive(Debug, Clone, Copy)]
pub struct FuseOutHeader {
    pub len: u32,
    pub error: i32,
    pub unique: u64,
}

impl FuseOutHeader {
    /// Builds the structure from its fields.
    pub fn new(len: u32, error: i32, unique: u64) -> (r: Self)
        ensures
            r == (FuseOutHeader { len: len, error: error, unique: unique }),
    {
        FuseOutHeader { len, error, unique }
    }

    /// The 16 bytes that `write_to` stores, in wire order.
    pub open spec fn spec_bytes(&self) -> Seq<u8> {
        le_u32(self.len) + le_i32(self.error) + le_u64(self.unique)
    }

    /// The bytes of `spec_bytes` as a vector.
    pub(crate) fn to_bytes(&self) -> (v: Vec<u8>)
        ensures
            v@ == self.spec_bytes(),
            v@.len() == 16,
    {
        let mut v: Vec<u8> = Vec::new();
        push_u32(&mut v, self.len);
        push_i32(&mut v, self.error);
        push_u64(&mut v, self.unique);
        assert(v@ =~= self.spec_bytes());
        v
    }

    /// Stores the little-endian encoding in the first 16 bytes of `buf`;
    /// the rest of `buf` is left as it was.
    pub fn write_to(&self, buf: &mut [u8])
        requires
            old(buf)@.len() >= 16,
        ensures
            final(buf)@ == splice(old(buf)@, 0, self.spec_bytes()),
    {
        let v = self.to_bytes();
        copy_into(buf, 0, v.as_slice());
    }

    /// The value whose wire form starts at `off` in `s`.
    pub open spec fn spec_read_at(s: Seq<u8>, off: int) -> Self {
        FuseOutHeader { len: u32_at(s, off + 0), error: i32_at(s, off + 4), unique: u64_at(s, off + 8) }
    }

    /// Decodes the 16 bytes that start at `off`.
    pub(crate) fn read_at(buf: &[u8], off: usize) -> (r: Self)
        requires
            off + 16 <= buf@.len(),
        ensures
            r == Self::spec_read_at(buf@, off as int),
    {
        // Reading the length tells Verus that it fits in `usize`, which bounds the field offsets.
        let _len = buf.len();
        FuseOutHeader { len: read_u32(buf, off + 0), error: read_i32(buf, off + 4), unique: read_u64(buf, off + 8) }
    }

    /// Decodes the first 16 bytes of `buf`.
    pub fn read_from(buf: &[u8]) -> (r: Self)
        requires
            buf@.len() >= 16,
        ensures
            r == Self::spec_read_at(buf@, 0),
    {
        Self::read_at(buf, 0)
    }

}

/// The argument of an `INIT` request.
#[derive(Debug, Clone, Copy)]
pub struct FuseInitIn {
    pub major: u32,
    pub minor: u32,
    pub max_readahead: u32,
    pub flags: u32,
    pub flags2: u32,
    pub unused: [u32; 11],
}

impl FuseInitIn {
    /// Builds the structure from its fields.
    pub fn new(major: u32, minor: u32, max_readahead: u32, flags: u32, flags2: u32, unused: [u32; 11]) -> (r: Self)
        ensures
            r == (FuseInitIn { major: major, minor: minor, max_readahead: max_readahead, flags: flags, flags2: flags2, unused: unused }),
    {
        FuseInitIn { major, minor, max_readahead, flags, flags2, unused }
    }

    /// The 64 bytes that `write_to` stores, in wire order.
    pub open spec fn spec_bytes(&self) -> Seq<u8> {
        le_u32(self.major) + le_u32(self.minor) + le_u32(self.max_readahead) + le_u32(self.flags) + le_u32(self.flags2) + le_u32(self.unused[0]) + le_u32(self.unused[1]) + le_u32(self.unused[2]) + le_u32(self.unused[3]) + le_u32(self.unused[4]) + le_u32(self.unused[5]) + le_u32(self.unused[6]) + le_u32(self.unused[7]) + le_u32(self.unused[8]) + le_u32(self.unused[9]) + le_u32(self.unused[10])
    }

    /// The bytes of `spec_bytes` as a vector.
    pub(crate) fn to_bytes(&self) -> (v: Vec<u8>)
        ensures
            v@ == self.spec_bytes(),
            v@.len() == 64,
    {
        let mut v: Vec<u8> = Vec::new();
        push_u32(&mut v, self.major);
        push_u32(&mut v, self.minor);
        push_u32(&mut v, self.max_readahead);
        push_u32(&mut v, self.flags);
        push_u32(&mut v, self.flags2);
        push_u32(&mut v, self.unused[0]);
        push_u32(&mut v, self.unused[1]);
        push_u32(&mut v, self.unused[2]);
        push_u32(&mut v, self.unused[3]);
        push_u32(&mut v, self.unused[4]);
        push_u32(&mut v, self.unused[5]);
        push_u32(&mut v, self.unused[6]);
        push_u32(&mut v, self.unused[7]);
        push_u32(&mut v, self.unused[8]);
        push_u32(&mut v, self.unused[9]);
        push_u32(&mut v, self.unused[10]);
        assert(v@ =~= self.spec_bytes());
        v
    }

    /// Stores the little-endian encoding in the first 64 bytes of `buf`;
    /// the rest of `buf` is left as it was.
    pub fn write_to(&self, buf: &mut [u8])
        requires
            old(buf)@.len() >= 64,
        ensures
            final(buf)@ == splice(old(buf)@, 0, self.spec_bytes()),
    {
        let v = self.to_bytes();
        copy_into(buf, 0, v.as_slice());
    }

}

/// The reply to an `INIT` request.
#[derive(Debug, Clone, Copy)]
pub struct FuseInitOut {
    pub major: u32,
    pub minor: u32,
    pub max_readahead: u32,
    pub flags: u32,
    pub max_background: u16,
    pub congestion_threshold: u16,
    pub max_write: u32,
    pub time_gran: u32,
    pub max_pages: u16,
    pub map_alignment: u16,
    pub flags2: u32,
    pub unused: [u32; 7],
}

impl FuseInitOut {
    /// Builds the structure from its fields.
    pub fn new(major: u32, minor: u32, max_readahead: u32, flags: u32, max_background: u16, congestion_threshold: u16, max_write: u32, time_gran: u32, max_pages: u16, map_alignment: u16, flags2: u32, unused: [u32; 7]) -> (r: Self)
        ensures
            r == (FuseInitOut { major: major, minor: minor, max_readahead: max_readahead, flags: flags, max_background: max_background, congestion_threshold: congestion_threshold, max_write: max_write, time_gran: time_gran, max_pages: max_pages, map_alignment: map_alignment, flags2: flags2, unused: unused }),
    {
        FuseInitOut { major, minor, max_readahead, flags, max_background, congestion_threshold, max_write, time_gran, max_pages, map_alignment, flags2, unused }
    }

}

/// The argument of a `GETATTR` request.
#[derive(Debug, Clone, Copy)]
pub struct FuseGetattrIn {
    pub getattr_flags: u32,
    pub dummy: u32,
    pub fh: u64,
}

impl FuseGetattrIn {
    /// Builds the structure from its fields.
    pub fn new(getattr_flags: u32, dummy: u32, fh: u64) -> (r: Self)
        ensures
            r == (FuseGetattrIn { getattr_flags: getattr_flags, dummy: dummy, fh: fh }),
    {
        FuseGetattrIn { getattr_flags, dummy, fh }
    }

    /// The 16 bytes that `write_to` stores, in wire order.
    pub open spec fn spec_bytes(&self) -> Seq<u8> {
        le_u32(self.getattr_flags) + le_u32(self.dummy) + le_u64(self.fh)
    }

    /// The bytes of `spec_bytes` as a vector.
    pub(crate) fn to_bytes(&self) -> (v: Vec<u8>)
        ensures
            v@ == self.spec_bytes(),
            v@.len() == 16,
    {
        let mut v: Vec<u8> = Vec::new();
        push_u32(&mut v, self.getattr_flags);
        push_u32(&mut v, self.dummy);
        push_u64(&mut v, self.fh);
        assert(v@ =~= self.spec_bytes());
        v
    }

    /// Stores the little-endian encoding in the first 16 bytes of `buf`;
    /// the rest of `buf` is left as it was.
    pub fn write_to(&self, buf: &mut [u8])
        requires
            old(buf)@.len() >= 16,
        ensures
            final(buf)@ == splice(old(buf)@, 0, self.spec_bytes()),
    {
        let v = self.to_bytes();
        copy_into(buf, 0, v.as_slice());
    }

}

/// The attributes of a file as the daemon reports them.
#[derive(Debug, Clone, Copy)]
pub struct FuseAttr {
    pub ino: u64,
    pub size: u64,
    pub blocks: u64,
    pub atime: u64,
    pub mtime: u64,
    pub ctime: u64,
    pub crtime: u64,
    pub atimensec: u32,
    pub mtimensec: u32,
    pub ctimensec: u32,
    pub crtimensec: u32,
    pub mode: u32,
    pub nlink: u32,
    pub uid: u32,
    pub gid: u32,
    pub rdev: u32,
    pub blksize: u32,
    pub padding: u32,
}

impl FuseAttr {
    /// The value whose wire form starts at `off` in `s`.
    pub open spec fn spec_read_at(s: Seq<u8>, off: int) -> Self {
        FuseAttr { ino: u64_at(s, off + 0), size: u64_at(s, off + 8), blocks: u64_at(s, off + 16), atime: u64_at(s, off + 24), mtime: u64_at(s, off + 32), ctime: u64_at(s, off + 40), crtime: 0, atimensec: u32_at(s, off + 48), mtimensec: u32_at(s, off + 52), ctimensec: u32_at(s, off + 56), crtimensec: 0, mode: u32_at(s, off + 60), nlink: u32_at(s, off + 64), uid: u32_at(s, off + 68), gid: u32_at(s, off + 72), rdev: u32_at(s, off + 76), blksize: u32_at(s, off + 80), padding: u32_at(s, off + 84) }
    }

    /// Decodes the 88 bytes that start at `off`.
    pub(crate) fn read_at(buf: &[u8], off: usize) -> (r: Self)
        requires
            off + 88 <= buf@.len(),
        ensures
            r == Self::spec_read_at(buf@, off as int),
    {
        // Reading the length tells Verus that it fits in `usize`, which bounds the field offsets.
        let _len = buf.len();
        FuseAttr { ino: read_u64(buf, off + 0), size: read_u64(buf, off + 8), blocks: read_u64(buf, off + 16), atime: read_u64(buf, off + 24), mtime: read_u64(buf, off + 32), ctime: read_u64(buf, off + 40), crtime: 0, atimensec: read_u32(buf, off + 48), mtimensec: read_u32(buf, off + 52), ctimensec: read_u32(buf, off + 56), crtimensec: 0, mode: read_u32(buf, off + 60), nlink: read_u32(buf, off + 64), uid: read_u32(buf, off + 68), gid: read_u32(buf, off + 72), rdev: read_u32(buf, off + 76), blksize: read_u32(buf, off + 80), padding: read_u32(buf, off + 84) }
    }

    /// Decodes the first 88 bytes of `buf`.
    pub fn read_from(buf: &[u8]) -> (r: Self)
        requires
            buf@.len() >= 88,
        ensures
            r == Self::spec_read_at(buf@, 0),
    {
        Self::read_at(buf, 0)
    }

}

/// The reply to a `GETATTR` request.
#[derive(Debug, Clone, Copy)]
pub struct FuseAttrOut {
    pub attr_valid: u64,
    pub attr_valid_nsec: u32,
    pub dummy: u32,
    pub attr: FuseAttr,
}

impl FuseAttrOut {
    /// The value whose wire form starts at `off` in `s`.
    pub open spec fn spec_read_at(s: Seq<u8>, off: int) -> Self {
        FuseAttrOut { attr_valid: u64_at(s, off + 0), attr_valid_nsec: u32_at(s, off + 8), dummy: u32_at(s, off + 12), attr: FuseAttr::spec_read_at(s, off + 16) }
    }

    /// Decodes the 104 bytes that start at `off`.
    pub(crate) fn read_at(buf: &[u8], off: usize) -> (r: Self)
        requires
            off + 104 <= buf@.len(),
        ensures
            r == Self::spec_read_at(buf@, off as int),
    {
        // Reading the length tells Verus that it fits in `usize`, which bounds the field offsets.
        let _len = buf.len();
        FuseAttrOut { attr_valid: read_u64(buf, off + 0), attr_valid_nsec: read_u32(buf, off + 8), dummy: read_u32(buf, off + 12), attr: FuseAttr::read_at(buf, off + 16) }
    }

    /// Decodes the first 104 bytes of `buf`.
    pub fn read_from(buf: &[u8]) -> (r: Self)
        requires
            buf@.len() >= 104,
        ensures
            r == Self::spec_read_at(buf@, 0),
    {
        Self::read_at(buf, 0)
    }

}

/// The reply that names a file: to `LOOKUP`, `MKNOD`, `MKDIR` and `CREATE`.
#[derive(Debug, Clone, Copy)]
pub struct FuseEntryOut {
    pub nodeid: u64,
    pub generation: u64,
    pub entry_valid: u64,
    pub attr_valid: u64,
    pub entry_valid_nsec: u32,
    pub attr_valid_nsec: u32,
    pub attr: FuseAttr,
}

impl FuseEntryOut {
    /// The value whose wire form starts at `off` in `s`.
    pub open spec fn spec_read_at(s: Seq<u8>, off: int) -> Self {
        FuseEntryOut { nodeid: u64_at(s, off + 0), generation: u64_at(s, off + 8), entry_valid: u64_at(s, off + 16), attr_valid: u64_at(s, off + 24), entry_valid_nsec: u32_at(s, off + 32), attr_valid_nsec: u32_at(s, off + 36), attr: FuseAttr::spec_read_at(s, off + 40) }
    }

    /// Decodes the 128 bytes that start at `off`.
    pub(crate) fn read_at(buf: &[u8], off: usize) -> (r: Self)
        requires
            off + 128 <= buf@.len(),
        ensures
            r == Self::spec_read_at(buf@, off as int),
    {
        // Reading the length tells Verus that it fits in `usize`, which bounds the field offsets.
        let _len = buf.len();
        FuseEntryOut { nodeid: read_u64(buf, off + 0), generation: read_u64(buf, off + 8), entry_valid: read_u64(buf, off + 16), attr_valid: read_u64(buf, off + 24), entry_valid_nsec: read_u32(buf, off + 32), attr_valid_nsec: read_u32(buf, off + 36), attr: FuseAttr::read_at(buf, off + 40) }
    }

    /// Decodes the first 128 bytes of `buf`.
    pub fn read_from(buf: &[u8]) -> (r: Self)
        requires
            buf@.len() >= 128,
        ensures
            r == Self::spec_read_at(buf@, 0),
    {
        Self::read_at(buf, 0)
    }

}

/// The argument of an `OPEN` or `OPENDIR` request.
#[derive(Debug, Clone, Copy)]
pub struct FuseOpenIn {
    pub flags: u32,
    pub open_flags: u32,
}

impl FuseOpenIn {
    /// Builds the structure from its fields.
    pub fn new(flags: u32, open_flags: u32) -> (r: Self)
        ensures
            r == (FuseOpenIn { flags: flags, open_flags: open_flags }),
    {
        FuseOpenIn { flags, open_flags }
    }

    /// The 8 bytes that `write_to` stores, in wire order.
    pub open spec fn spec_bytes(&self) -> Seq<u8> {
        le_u32(self.flags) + le_u32(self.open_flags)
    }

    /// The bytes of `spec_bytes` as a vector.
    pub(crate) fn to_bytes(&self) -> (v: Vec<u8>)
        ensures
            v@ == self.spec_bytes(),
            v@.len() == 8,
    {
        let mut v: Vec<u8> = Vec::new();
        push_u32(&mut v, self.flags);
        push_u32(&mut v, self.open_flags);
        assert(v@ =~= self.spec_bytes());
        v
    }

    /// Stores the little-endian encoding in the first 8 bytes of `buf`;
    /// the rest of `buf` is left as it was.
    pub fn write_to(&self, buf: &mut [u8])
        requires
            old(buf)@.len() >= 8,
        ensures
            final(buf)@ == splice(old(buf)@, 0, self.spec_bytes()),
    {
        let v = self.to_bytes();
        copy_into(buf, 0, v.as_slice());
    }

}

/// The reply to an `OPEN`, `OPENDIR` or `CREATE` request.
#[derive(Debug, Clone, Copy)]
pub struct FuseOpenOut {
    pub fh: u64,
    pub open_flags: u32,
    pub padding: u32,
}

impl FuseOpenOut {
    /// Builds the structure from its fields; `padding` is zero.
    pub fn new(fh: u64, open_flags: u32) -> (r: Self)
        ensures
            r == (FuseOpenOut { fh: fh, open_flags: open_flags, padding: 0 }),
    {
        FuseOpenOut { fh, open_flags, padding: 0 }
    }

    /// The value whose wire form starts at `off` in `s`.
    pub open spec fn spec_read_at(s: Seq<u8>, off: int) -> Self {
        FuseOpenOut { fh: u64_at(s, off + 0), open_flags: u32_at(s, off + 8), padding: u32_at(s, off + 12) }
    }

    /// Decodes the 16 bytes that start at `off`.
    pub(crate) fn read_at(buf: &[u8], off: usize) -> (r: Self)
        requires
            off + 16 <= buf@.len(),
        ensures
            r == Self::spec_read_at(buf@, off as int),
    {
        // Reading the length tells Verus that it fits in `usize`, which bounds the field offsets.
        let _len = buf.len();
        FuseOpenOut { fh: read_u64(buf, off + 0), open_flags: read_u32(buf, off + 8), padding: read_u32(buf, off + 12) }
    }

    /// Decodes the first 16 bytes of `buf`.
    pub fn read_from(buf: &[u8]) -> (r: Self)
        requires
            buf@.len() >= 16,
        ensures
            r == Self::spec_read_at(buf@, 0),
    {
        Self::read_at(buf, 0)
    }

}

/// The argument of a `READ` or `READDIR` request.
#[derive(Debug, Clone, Copy)]
pub struct FuseReadIn {
    pub fh: u64,
    pub offset: u64,
    pub size: u32,
    pub read_flags: u32,
    pub lock_owner: u64,
    pub flags: u32,
    pub padding: u32,
}

impl FuseReadIn {
    /// Builds the structure from its fields; `padding` is zero.
    pub fn new(fh: u64, offset: u64, size: u32, read_flags: u32, lock_owner: u64, flags: u32) -> (r: Self)
        ensures
            r == (FuseReadIn { fh: fh, offset: offset, size: size, read_flags: read_flags, lock_owner: lock_owner, flags: flags, padding: 0 }),
    {
        FuseReadIn { fh, offset, size, read_flags, lock_owner, flags, padding: 0 }
    }

    /// The 36 bytes that `write_to` stores, in wire order.
    pub open spec fn spec_bytes(&self) -> Seq<u8> {
        le_u64(self.fh) + le_u64(self.offset) + le_u32(self.size) + le_u32(self.read_flags) + le_u64(self.lock_owner) + le_u32(self.flags)
    }

    /// The bytes of `spec_bytes` as a vector.
    pub(crate) fn to_bytes(&self) -> (v: Vec<u8>)
        ensures
            v@ == self.spec_bytes(),
            v@.len() == 36,
    {
        let mut v: Vec<u8> = Vec::new();
        push_u64(&mut v, self.fh);
        push_u64(&mut v, self.offset);
        push_u32(&mut v, self.size);
        push_u32(&mut v, self.read_flags);
        push_u64(&mut v, self.lock_owner);
        push_u32(&mut v, self.flags);
        assert(v@ =~= self.spec_bytes());
        v
    }

    /// Stores the little-endian encoding in the first 36 bytes of `buf`;
    /// the rest of `buf` is left as it was.
    pub fn write_to(&self, buf: &mut [u8])
        requires
            old(buf)@.len() >= 36,
        ensures
            final(buf)@ == splice(old(buf)@, 0, self.spec_bytes()),
    {
        let v = self.to_bytes();
        copy_into(buf, 0, v.as_slice());
    }

}

/// The argument of a `WRITE` request.
#[derive(Debug, Clone, Copy)]
pub struct FuseWriteIn {
    pub fh: u64,
    pub offset: u64,
    pub size: u32,
    pub write_flags: u32,
    pub lock_owner: u64,
    pub flags: u32,
    pub padding: u32,
}

impl FuseWriteIn {
    /// Builds the structure from its fields; `padding` is zero.
    pub fn new(fh: u64, offset: u64, size: u32, write_flags: u32, lock_owner: u64, flags: u32) -> (r: Self)
        ensures
            r == (FuseWriteIn { fh: fh, offset: offset, size: size, write_flags: write_flags, lock_owner: lock_owner, flags: flags, padding: 0 }),
    {
        FuseWriteIn { fh, offset, size, write_flags, lock_owner, flags, padding: 0 }
    }

    /// The 36 bytes that `write_to` stores, in wire order.
    pub open spec fn spec_bytes(&self) -> Seq<u8> {
        le_u64(self.fh) + le_u64(self.offset) + le_u32(self.size) + le_u32(self.write_flags) + le_u64(self.lock_owner) + le_u32(self.flags)
    }

    /// The bytes of `spec_bytes` as a vector.
    pub(crate) fn to_bytes(&self) -> (v: Vec<u8>)
        ensures
            v@ == self.spec_bytes(),
            v@.len() == 36,
    {
        let mut v: Vec<u8> = Vec::new();
        push_u64(&mut v, self.fh);
        push_u64(&mut v, self.offset);
        push_u32(&mut v, self.size);
        push_u32(&mut v, self.write_flags);
        push_u64(&mut v, self.lock_owner);
        push_u32(&mut v, self.flags);
        assert(v@ =~= self.spec_bytes());
        v
    }

    /// Stores the little-endian encoding in the first 36 bytes of `buf`;
    /// the rest of `buf` is left as it was.
    pub fn write_to(&self, buf: &mut [u8])
        requires
            old(buf)@.len() >= 36,
        ensures
            final(buf)@ == splice(old(buf)@, 0, self.spec_bytes()),
    {
        let v = self.to_bytes();
        copy_into(buf, 0, v.as_slice());
    }

}

/// The reply to a `WRITE` request.
#[derive(Debug, Clone, Copy)]
pub struct FuseWriteOut {
    pub size: u32,
    pub padding: u32,
}

impl FuseWriteOut {
    /// Builds the structure from its fields; `padding` is zero.
    pub fn new(size: u32) -> (r: Self)
        ensures
            r == (FuseWriteOut { size: size, padding: 0 }),
    {
        FuseWriteOut { size, padding: 0 }
    }

    /// The 4 bytes that `write_to` stores, in wire order.
    pub open spec fn spec_bytes(&self) -> Seq<u8> {
        le_u32(self.size)
    }

    /// The bytes of `spec_bytes` as a vector.
    pub(crate) fn to_bytes(&self) -> (v: Vec<u8>)
        ensures
            v@ == self.spec_bytes(),
            v@.len() == 4,
    {
        let mut v: Vec<u8> = Vec::new();
        push_u32(&mut v, self.size);
        assert(v@ =~= self.spec_bytes());
        v
    }

    /// Stores the little-endian encoding in the first 4 bytes of `buf`;
    /// the rest of `buf` is left as it was.
    pub fn write_to(&self, buf: &mut [u8])
        requires
            old(buf)@.len() >= 4,
        ensures
            final(buf)@ == splice(old(buf)@, 0, self.spec_bytes()),
    {
        let v = self.to_bytes();
        copy_into(buf, 0, v.as_slice());
    }

    /// The value whose wire form starts at `off` in `s`.
    pub open spec fn spec_read_at(s: Seq<u8>, off: int) -> Self {
        FuseWriteOut { size: u32_at(s, off + 0), padding: u32_at(s, off + 4) }
    }

    /// Decodes the 8 bytes that start at `off`.
    pub(crate) fn read_at(buf: &[u8], off: usize) -> (r: Self)
        requires
            off + 8 <= buf@.len(),
        ensures
            r == Self::spec_read_at(buf@, off as int),
    {
        // Reading the length tells Verus that it fits in `usize`, which bounds the field offsets.
        let _len = buf.len();
        FuseWriteOut { size: read_u32(buf, off + 0), padding: read_u32(buf, off + 4) }
    }

    /// Decodes the first 8 bytes of `buf`.
    pub fn read_from(buf: &[u8]) -> (r: Self)
        requires
            buf@.len() >= 8,
        ensures
            r == Self::spec_read_at(buf@, 0),
    {
        Self::read_at(buf, 0)
    }

}

/// The argument of a `RELEASE` or `RELEASEDIR` request.
#[derive(Debug, Clone, Copy)]
pub struct FuseReleaseIn {
    pub fh: u64,
    pub flags: u32,
    pub release_flags: u32,
    pub lock_owner: u64,
}

impl FuseReleaseIn {
    /// Builds the structure from its fields.
    pub fn new(fh: u64, flags: u32, release_flags: u32, lock_owner: u64) -> (r: Self)
        ensures
            r == (FuseReleaseIn { fh: fh, flags: flags, release_flags: release_flags, lock_owner: lock_owner }),
    {
        FuseReleaseIn { fh, flags, release_flags, lock_owner }
    }

    /// The 24 bytes that `write_to` stores, in wire order.
    pub open spec fn spec_bytes(&self) -> Seq<u8> {
        le_u64(self.fh) + le_u32(self.flags) + le_u32(self.release_flags) + le_u64(self.lock_owner)
    }

    /// The bytes of `spec_bytes` as a vector.
    pub(crate) fn to_bytes(&self) -> (v: Vec<u8>)
        ensures
            v@ == self.spec_bytes(),
            v@.len() == 24,
    {
        let mut v: Vec<u8> = Vec::new();
        push_u64(&mut v, self.fh);
        push_u32(&mut v, self.flags);
        push_u32(&mut v, self.release_flags);
        push_u64(&mut v, self.lock_owner);
        assert(v@ =~= self.spec_bytes());
        v
    }

    /// Stores the little-endian encoding in the first 24 bytes of `buf`;
    /// the rest of `buf` is left as it was.
    pub fn write_to(&self, buf: &mut [u8])
        requires
            old(buf)@.len() >= 24,
        ensures
            final(buf)@ == splice(old(buf)@, 0, self.spec_bytes()),
    {
        let v = self.to_bytes();
        copy_into(buf, 0, v.as_slice());
    }

}

/// The argument of a `FLUSH` request.
#[derive(Debug, Clone, Copy)]
pub struct FuseFlushIn {
    pub fh: u64,
    pub unused: u32,
    pub padding: u32,
    pub lock_owner: u64,
}

impl FuseFlushIn {
    /// Builds the structure from its fields.
    pub fn new(fh: u64, unused: u32, padding: u32, lock_owner: u64) -> (r: Self)
        ensures
            r == (FuseFlushIn { fh: fh, unused: unused, padding: padding, lock_owner: lock_owner }),
    {
        FuseFlushIn { fh, unused, padding, lock_owner }
    }

    /// The 24 bytes that `write_to` stores, in wire order.
    pub open spec fn spec_bytes(&self) -> Seq<u8> {
        le_u64(self.fh) + le_u32(self.unused) + le_u32(self.padding) + le_u64(self.lock_owner)
    }

    /// The bytes of `spec_bytes` as a vector.
    pub(crate) fn to_bytes(&self) -> (v: Vec<u8>)
        ensures
            v@ == self.spec_bytes(),
            v@.len() == 24,
    {
        let mut v: Vec<u8> = Vec::new();
        push_u64(&mut v, self.fh);
        push_u32(&mut v, self.unused);
        push_u32(&mut v, self.padding);
        push_u64(&mut v, self.lock_owner);
        assert(v@ =~= self.spec_bytes());
        v
    }

    /// Stores the little-endian encoding in the first 24 bytes of `buf`;
    /// the rest of `buf` is left as it was.
    pub fn write_to(&self, buf: &mut [u8])
        requires
            old(buf)@.len() >= 24,
        ensures
            final(buf)@ == splice(old(buf)@, 0, self.spec_bytes()),
    {
        let v = self.to_bytes();
        copy_into(buf, 0, v.as_slice());
    }

}

/// The argument of a `MKNOD` request.
#[derive(Debug, Clone, Copy)]
pub struct FuseMknodIn {
    pub mode: u32,
    pub rdev: u32,
    pub umask: u32,
    pub padding: u32,
}

impl FuseMknodIn {
    /// Builds the structure from its fields; `padding` is zero.
    pub fn new(mode: u32, rdev: u32, umask: u32) -> (r: Self)
        ensures
            r == (FuseMknodIn { mode: mode, rdev: rdev, umask: umask, padding: 0 }),
    {
        FuseMknodIn { mode, rdev, umask, padding: 0 }
    }

    /// The 16 bytes that `write_to` stores, in wire order.
    pub open spec fn spec_bytes(&self) -> Seq<u8> {
        le_u32(self.mode) + le_u32(self.rdev) + le_u32(self.umask) + le_u32(self.padding)
    }

    /// The bytes of `spec_bytes` as a vector.
    pub(crate) fn to_bytes(&self) -> (v: Vec<u8>)
        ensures
            v@ == self.spec_bytes(),
            v@.len() == 16,
    {
        let mut v: Vec<u8> = Vec::new();
        push_u32(&mut v, self.mode);
        push_u32(&mut v, self.rdev);
        push_u32(&mut v, self.umask);
        push_u32(&mut v, self.padding);
        assert(v@ =~= self.spec_bytes());
        v
    }

    /// Stores the little-endian encoding in the first 16 bytes of `buf`;
    /// the rest of `buf` is left as it was.
    pub fn write_to(&self, buf: &mut [u8])
        requires
            old(buf)@.len() >= 16,
        ensures
            final(buf)@ == splice(old(buf)@, 0, self.spec_bytes()),
    {
        let v = self.to_bytes();
        copy_into(buf, 0, v.as_slice());
    }

}

/// The argument of a `MKDIR` request.
#[derive(Debug, Clone, Copy)]
pub struct FuseMkdirIn {
    pub mode: u32,
    pub umask: u32,
}

impl FuseMkdirIn {
    /// Builds the structure from its fields.
    pub fn new(mode: u32, umask: u32) -> (r: Self)
        ensures
            r == (FuseMkdirIn { mode: mode, umask: umask }),
    {
        FuseMkdirIn { mode, umask }
    }

    /// The 8 bytes that `write_to` stores, in wire order.
    pub open spec fn spec_bytes(&self) -> Seq<u8> {
        le_u32(self.mode) + le_u32(self.umask)
    }

    /// The bytes of `spec_bytes` as a vector.
    pub(crate) fn to_bytes(&self) -> (v: Vec<u8>)
        ensures
            v@ == self.spec_bytes(),
            v@.len() == 8,
    {
        let mut v: Vec<u8> = Vec::new();
        push_u32(&mut v, self.mode);
        push_u32(&mut v, self.umask);
        assert(v@ =~= self.spec_bytes());
        v
    }

    /// Stores the little-endian encoding in the first 8 bytes of `buf`;
    /// the rest of `buf` is left as it was.
    pub fn write_to(&self, buf: &mut [u8])
        requires
            old(buf)@.len() >= 8,
        ensures
            final(buf)@ == splice(old(buf)@, 0, self.spec_bytes()),
    {
        let v = self.to_bytes();
        copy_into(buf, 0, v.as_slice());
    }

}

/// The argument of a `RENAME` request.
#[derive(Debug, Clone, Copy)]
pub struct FuseRenameIn {
    pub newdir: u64,
}

impl FuseRenameIn {
    /// Builds the structure from its fields.
    pub fn new(newdir: u64) -> (r: Self)
        ensures
            r == (FuseRenameIn { newdir: newdir }),
    {
        FuseRenameIn { newdir }
    }

    /// The 8 bytes that `write_to` stores, in wire order.
    pub open spec fn spec_bytes(&self) -> Seq<u8> {
        le_u64(self.newdir)
    }

    /// The bytes of `spec_bytes` as a vector.
    pub(crate) fn to_bytes(&self) -> (v: Vec<u8>)
        ensures
            v@ == self.spec_bytes(),
            v@.len() == 8,
    {
        let mut v: Vec<u8> = Vec::new();
        push_u64(&mut v, self.newdir);
        assert(v@ =~= self.spec_bytes());
        v
    }

    /// Stores the little-endian encoding in the first 8 bytes of `buf`;
    /// the rest of `buf` is left as it was.
    pub fn write_to(&self, buf: &mut [u8])
        requires
            old(buf)@.len() >= 8,
        ensures
            final(buf)@ == splice(old(buf)@, 0, self.spec_bytes()),
    {
        let v = self.to_bytes();
        copy_into(buf, 0, v.as_slice());
    }

}

/// The argument of a `RENAME2` request.
#[derive(Debug, Clone, Copy)]
pub struct FuseRename2In {
    pub newdir: u64,
    pub flags: u32,
    pub padding: u32,
}

impl FuseRename2In {
    /// Builds the structure from its fields; `padding` is zero.
    pub fn new(newdir: u64, flags: u32) -> (r: Self)
        ensures
            r == (FuseRename2In { newdir: newdir, flags: flags, padding: 0 }),
    {
        FuseRename2In { newdir, flags, padding: 0 }
    }

    /// The 16 bytes that `write_to` stores, in wire order.
    pub open spec fn spec_bytes(&self) -> Seq<u8> {
        le_u64(self.newdir) + le_u32(self.flags) + le_u32(self.padding)
    }

    /// The bytes of `spec_bytes` as a vector.
    pub(crate) fn to_bytes(&self) -> (v: Vec<u8>)
        ensures
            v@ == self.spec_bytes(),
            v@.len() == 16,
    {
        let mut v: Vec<u8> = Vec::new();
        push_u64(&mut v, self.newdir);
        push_u32(&mut v, self.flags);
        push_u32(&mut v, self.padding);
        assert(v@ =~= self.spec_bytes());
        v
    }

    /// Stores the little-endian encoding in the first 16 bytes of `buf`;
    /// the rest of `buf` is left as it was.
    pub fn write_to(&self, buf: &mut [u8])
        requires
            old(buf)@.len() >= 16,
        ensures
            final(buf)@ == splice(old(buf)@, 0, self.spec_bytes()),
    {
        let v = self.to_bytes();
        copy_into(buf, 0, v.as_slice());
    }

}

/// The argument of an `ACCESS` request.
#[derive(Debug, Clone, Copy)]
pub struct FuseAccessIn {
    pub mask: u32,
    pub padding: u32,
}

impl FuseAccessIn {
    /// Builds the structure from its fields; `padding` is zero.
    pub fn new(mask: u32) -> (r: Self)
        ensures
            r == (FuseAccessIn { mask: mask, padding: 0 }),
    {
        FuseAccessIn { mask, padding: 0 }
    }

    /// The 8 bytes that `write_to` stores, in wire order.
    pub open spec fn spec_bytes(&self) -> Seq<u8> {
        le_u32(self.mask) + le_u32(self.padding)
    }

    /// The bytes of `spec_bytes` as a vector.
    pub(crate) fn to_bytes(&self) -> (v: Vec<u8>)
        ensures
            v@ == self.spec_bytes(),
            v@.len() == 8,
    {
        let mut v: Vec<u8> = Vec::new();
        push_u32(&mut v, self.mask);
        push_u32(&mut v, self.padding);
        assert(v@ =~= self.spec_bytes());
        v
    }

    /// Stores the little-endian encoding in the first 8 bytes of `buf`;
    /// the rest of `buf` is left as it was.
    pub fn write_to(&self, buf: &mut [u8])
        requires
            old(buf)@.len() >= 8,
        ensures
            final(buf)@ == splice(old(buf)@, 0, self.spec_bytes()),
    {
        let v = self.to_bytes();
        copy_into(buf, 0, v.as_slice());
    }

}

/// The argument of a `CREATE` request.
#[derive(Debug, Clone, Copy)]
pub struct FuseCreateIn {
    pub flags: u32,
    pub mode: u32,
    pub umask: u32,
    pub open_flags: u32,
}

impl FuseCreateIn {
    /// Builds the structure from its fields.
    pub fn new(flags: u32, mode: u32, umask: u32, open_flags: u32) -> (r: Self)
        ensures
            r == (FuseCreateIn { flags: flags, mode: mode, umask: umask, open_flags: open_flags }),
    {
        FuseCreateIn { flags, mode, umask, open_flags }
    }

    /// The 16 bytes that `write_to` stores, in wire order.
    pub open spec fn spec_bytes(&self) -> Seq<u8> {
        le_u32(self.flags) + le_u32(self.mode) + le_u32(self.umask) + le_u32(self.open_flags)
    }

    /// The bytes of `spec_bytes` as a vector.
    pub(crate) fn to_bytes(&self) -> (v: Vec<u8>)
        ensures
            v@ == self.spec_bytes(),
            v@.len() == 16,
    {
        let mut v: Vec<u8> = Vec::new();
        push_u32(&mut v, self.flags);
        push_u32(&mut v, self.mode);
        push_u32(&mut v, self.umask);
        push_u32(&mut v, self.open_flags);
        assert(v@ =~= self.spec_bytes());
        v
    }

    /// Stores the little-endian encoding in the first 16 bytes of `buf`;
    /// the rest of `buf` is left as it was.
    pub fn write_to(&self, buf: &mut [u8])
        requires
            old(buf)@.len() >= 16,
        ensures
            final(buf)@ == splice(old(buf)@, 0, self.spec_bytes()),
    {
        let v = self.to_bytes();
        copy_into(buf, 0, v.as_slice());
    }

}
impl FuseOutHeader {
    /// Whether the daemon reported success.
    pub open spec fn spec_is_ok(self) -> bool {
        self.error == 0
    }

    /// Whether the daemon reported success (an error code of zero).
    pub fn is_ok(&self) -> (r: bool)
        ensures
            r == self.spec_is_ok(),
    {
        self.error == 0
    }

    /// The error code that the daemon reported (a negated errno, or zero).
    pub fn error(&self) -> (r: i32)
        ensures
            r == self.error,
    {
        self.error
    }
}

impl FuseInitIn {
    /// The `INIT` argument with the given fields and every unused word zero.
    pub open spec fn new_spec(major: u32, minor: u32, max_readahead: u32, flags: u32, flags2: u32) -> Self {
        FuseInitIn {
            major: major,
            minor: minor,
            max_readahead: max_readahead,
            flags: flags,
            flags2: flags2,
            unused: [0u32, 0u32, 0u32, 0u32, 0u32, 0u32, 0u32, 0u32, 0u32, 0u32, 0u32],
        }
    }
}

impl FuseInitOut {
    /// The value whose wire form starts at `off` in `s`.
    pub open spec fn spec_read_at(s: Seq<u8>, off: int) -> Self {
        FuseInitOut {
            major: u32_at(s, off),
            minor: u32_at(s, off + 4),
            max_readahead: u32_at(s, off + 8),
            flags: u32_at(s, off + 12),
            max_background: u16_at(s, off + 16),
            congestion_threshold: u16_at(s, off + 18),
            max_write: u32_at(s, off + 20),
            time_gran: u32_at(s, off + 24),
            max_pages: u16_at(s, off + 28),
            map_alignment: u16_at(s, off + 30),
            flags2: u32_at(s, off + 32),
            unused: [
                u32_at(s, off + 36),
                u32_at(s, off + 40),
                u32_at(s, off + 44),
                u32_at(s, off + 48),
                u32_at(s, off + 52),
                u32_at(s, off + 56),
                u32_at(s, off + 60),
            ],
        }
    }

    /// Decodes the 64 bytes that start at `off`.
    pub(crate) fn read_at(buf: &[u8], off: usize) -> (r: Self)
        requires
            off + 64 <= buf@.len(),
        ensures
            r == Self::spec_read_at(buf@, off as int),
    {
        // Reading the length tells Verus that it fits in `usize`, which bounds the field offsets.
        let _len = buf.len();
        FuseInitOut {
            major: read_u32(buf, off),
            minor: read_u32(buf, off + 4),
            max_readahead: read_u32(buf, off + 8),
            flags: read_u32(buf, off + 12),
            max_background: read_u16(buf, off + 16),
            congestion_threshold: read_u16(buf, off + 18),
            max_write: read_u32(buf, off + 20),
            time_gran: read_u32(buf, off + 24),
            max_pages: read_u16(buf, off + 28),
            map_alignment: read_u16(buf, off + 30),
            flags2: read_u32(buf, off + 32),
            unused: [
                read_u32(buf, off + 36),
                read_u32(buf, off + 40),
                read_u32(buf, off + 44),
                read_u32(buf, off + 48),
                read_u32(buf, off + 52),
                read_u32(buf, off + 56),
                read_u32(buf, off + 60),
            ],
        }
    }

    /// Decodes the first 64 bytes of `buf`.
    pub fn read_from(buf: &[u8]) -> (r: Self)
        requires
            buf@.len() >= 64,
        ensures
            r == Self::spec_read_at(buf@, 0),
    {
        Self::read_at(buf, 0)
    }
}

impl FuseAttr {
    /// The attributes with every field zero.
    pub open spec fn spec_zero() -> Self {
        FuseAttr {
            ino: 0,
            size: 0,
            blocks: 0,
            atime: 0,
            mtime: 0,
            ctime: 0,
            crtime: 0,
            atimensec: 0,
            mtimensec: 0,
            ctimensec: 0,
            crtimensec: 0,
            mode: 0,
            nlink: 0,
            uid: 0,
            gid: 0,
            rdev: 0,
            blksize: 0,
            padding: 0,
        }
    }

    /// The file mode: the type bits and the permission bits.
    pub fn get_mode(&self) -> (r: u32)
        ensures
            r == self.mode,
    {
        self.mode
    }
}

impl Default for FuseAttr {
    fn default() -> (r: Self)
        ensures
            r == FuseAttr::spec_zero(),
    {
        FuseAttr {
            ino: 0,
            size: 0,
            blocks: 0,
            atime: 0,
            mtime: 0,
            ctime: 0,
            crtime: 0,
            atimensec: 0,
            mtimensec: 0,
            ctimensec: 0,
            crtimensec: 0,
            mode: 0,
            nlink: 0,
            uid: 0,
            gid: 0,
            rdev: 0,
            blksize: 0,
            padding: 0,
        }
    }
}

impl FuseAttrOut {
    /// The attributes carried by the reply.
    pub fn get_attr(&self) -> (r: FuseAttr)
        ensures
            r == self.attr,
    {
        self.attr
    }

    /// The file size carried by the reply.
    pub fn get_size(&self) -> (r: u64)
        ensures
            r == self.attr.size,
    {
        self.attr.size
    }
}

impl FuseEntryOut {
    /// The node id of the entry.
    pub fn get_nodeid(&self) -> (r: u64)
        ensures
            r == self.nodeid,
    {
        self.nodeid
    }

    /// The attributes of the entry.
    pub fn get_attr(&self) -> (r: FuseAttr)
        ensures
            r == self.attr,
    {
        self.attr
    }

    /// The file size of the entry.
    pub fn get_size(&self) -> (r: u64)
        ensures
            r == self.attr.size,
    {
        self.attr.size
    }
}

impl Default for FuseEntryOut {
    fn default() -> (r: Self)
        ensures
            r == (FuseEntryOut {
                nodeid: 0,
                generation: 0,
                entry_valid: 0,
                attr_valid: 0,
                entry_valid_nsec: 0,
                attr_valid_nsec: 0,
                attr: FuseAttr::spec_zero(),
            }),
    {
        FuseEntryOut {
            nodeid: 0,
            generation: 0,
            entry_valid: 0,
            attr_valid: 0,
            entry_valid_nsec: 0,
            attr_valid_nsec: 0,
            attr: FuseAttr::default(),
        }
    }
}

impl FuseOpenOut {
    /// The file handle that the daemon assigned.
    pub fn get_fh(&self) -> (r: u64)
        ensures
            r == self.fh,
    {
        self.fh
    }
}

impl Default for FuseOpenOut {
    fn default() -> (r: Self)
        ensures
            r == (FuseOpenOut { fh: 0, open_flags: 0, padding: 0 }),
    {
        FuseOpenOut { fh: 0, open_flags: 0, padding: 0 }
    }
}

/// The length of a directory entry record with a name of `namelen` bytes:
/// the 24-byte fixed part and the name, rounded up to a multiple of eight.
pub open spec fn dirent_record_len(namelen: u32) -> int {
    ((24 + namelen + 7) / 8) * 8
}

/// A record is at least as long as its fixed part and name, and at most
/// seven bytes longer.
pub proof fn lemma_dirent_record_len(namelen: u32)
    ensures
        24 + namelen <= dirent_record_len(namelen) <= 31 + namelen,
{
    let x: int = 24 + namelen + 7;
    assert((x / 8) * 8 <= x && (x / 8) * 8 > x - 8) by (nonlinear_arith)
        requires
            x >= 0,
    ;
}

/// Whether a directory entry record starts at `off` in `s` and lies
/// within `s`, name included.
pub open spec fn dirent_fits(s: Seq<u8>, off: int) -> bool {
    &&& 0 <= off
    &&& off + 24 <= s.len()
    &&& off + 24 + u32_at(s, off + 16) <= s.len()
}

/// One entry of the reply to a `READDIR` request, as plain values.
pub struct DirentView {
    pub ino: u64,
    pub off: u64,
    pub namelen: u32,
    pub typ: u32,
    pub name: Seq<u8>,
}

impl DirentView {
    /// The record whose wire form starts at `off` in `s`: the fixed part,
    /// then `namelen` bytes of name.
    pub open spec fn spec_read_at(s: Seq<u8>, off: int) -> DirentView {
        let namelen = u32_at(s, off + 16);
        DirentView {
            ino: u64_at(s, off),
            off: u64_at(s, off + 8),
            namelen: namelen,
            typ: u32_at(s, off + 20),
            name: s.subrange(off + 24, off + 24 + namelen),
        }
    }
}

/// One entry of the reply to a `READDIR` request.
#[derive(Debug, Clone)]
pub struct FuseDirent {
    pub ino: u64,
    pub off: u64,
    pub namelen: u32,
    pub typ: u32,
    pub name: Vec<u8>,
}

impl View for FuseDirent {
    type V = DirentView;

    open spec fn view(&self) -> DirentView {
        DirentView {
            ino: self.ino,
            off: self.off,
            namelen: self.namelen,
            typ: self.typ,
            name: self.name@,
        }
    }
}

impl FuseDirent {
    /// Whether `self` is the record whose wire form starts at `off` in `s`.
    pub open spec fn is_read_at(&self, s: Seq<u8>, off: int) -> bool {
        self@ == DirentView::spec_read_at(s, off)
    }

    /// Decodes the record that starts at `off`: the fixed part, then
    /// `namelen` bytes of name.
    pub(crate) fn read_at(buf: &[u8], off: usize) -> (r: Self)
        requires
            dirent_fits(buf@, off as int),
        ensures
            r.is_read_at(buf@, off as int),
    {
        // Reading the length tells Verus that it fits in `usize`, which bounds the field offsets.
        let _len = buf.len();
        let ino = read_u64(buf, off);
        let d_off = read_u64(buf, off + 8);
        let namelen = read_u32(buf, off + 16);
        let typ = read_u32(buf, off + 20);
        let start = off + 24;
        let end = start + namelen as usize;
        let mut name: Vec<u8> = Vec::new();
        let mut i = start;
        while i < end
            invariant
                start <= i <= end,
                end <= buf@.len(),
                name@ == buf@.subrange(start as int, i as int),
            decreases end - i,
        {
            name.push(buf[i]);
            i = i + 1;
            assert(name@ =~= buf@.subrange(start as int, i as int));
        }
        FuseDirent { ino, off: d_off, namelen, typ, name }
    }

    /// Decodes the record at the start of `buf`.
    pub fn read_from(buf: &[u8]) -> (r: Self)
        requires
            dirent_fits(buf@, 0),
        ensures
            r.is_read_at(buf@, 0),
    {
        Self::read_at(buf, 0)
    }

    /// The length of the record on the wire, padding included.
    pub fn get_len(&self) -> (r: u64)
        ensures
            r == dirent_record_len(self.namelen),
    {
        ((24 + self.namelen as u64 + 7) / 8) * 8
    }

    /// The name of the entry.
    pub fn get_name(&self) -> (r: Vec<u8>)
        ensures
            r@ == self.name@,
    {
        let mut r: Vec<u8> = Vec::new();
        let n = self.name.len();
        let mut i: usize = 0;
        while i < n
            invariant
                n == self.name@.len(),
                0 <= i <= n,
                r@ == self.name@.subrange(0, i as int),
            decreases n - i,
        {
            r.push(self.name[i]);
            i = i + 1;
            assert(r@ =~= self.name@.subrange(0, i as int));
        }
        assert(r@ =~= self.name@);
        r
    }

    /// The kind of node that the entry names.
    pub fn get_type_as_vfsnodetype(&self) -> (r: NodeType)
        ensures
            r == NodeType::spec_from_dirent_type(self.typ),
    {
        NodeType::from_dirent_type(self.typ)
    }
}

/// Reading a reply header back from a buffer that `write_to` filled gives
/// the header that was written.
pub proof fn lemma_out_header_roundtrip(h: FuseOutHeader, buf: Seq<u8>)
    requires
        buf.len() >= 16,
    ensures
        FuseOutHeader::spec_read_at(splice(buf, 0, h.spec_bytes()), 0) == h,
{
    lemma_u32_roundtrip(h.len);
    lemma_u32_roundtrip(h.error as u32);
    lemma_i32_roundtrip(h.error);
    lemma_u64_roundtrip(h.unique);
    let s = splice(buf, 0, h.spec_bytes());
    assert(s.len() == buf.len());
    assert(u32_at(s, 0) == h.len);
    assert(u32_at(s, 4) == h.error as u32);
    assert(u64_at(s, 8) == h.unique);
}

/// Reading a write reply back from a buffer that `write_to` filled gives
/// the size that was written.
pub proof fn lemma_write_out_roundtrip(w: FuseWriteOut, buf: Seq<u8>)
    requires
        buf.len() >= 8,
    ensures
        FuseWriteOut::spec_read_at(splice(buf, 0, w.spec_bytes()), 0).size == w.size,
{
    lemma_u32_roundtrip(w.size);
    let s = splice(buf, 0, w.spec_bytes());
    assert(u32_at(s, 0) == w.size);
}

} // verus!
