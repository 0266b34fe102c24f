//! The FUSE wire structures as the device file system spells them, with
//! their little-endian encodings.

use vstd::prelude::*;
use crate::le::{le_u32, le_u64, le_i32, splice, push_u32, push_u64, push_i32, copy_into};

verus! {

/// The operation codes of FUSE requests.
#[allow(non_camel_case_types)]
#[derive(Debug, Clone, Copy, PartialEq, Eq, Structural)]
pub enum fuse_opcode {
    FUSE_LOOKUP,
    FUSE_FORGET,
    FUSE_GETATTR,
    FUSE_SETATTR,
    FUSE_READLINK,
    FUSE_SYMLINK,
    FUSE_MKNOD,
    FUSE_MKDIR,
    FUSE_UNLINK,
    FUSE_RMDIR,
    FUSE_RENAME,
    FUSE_LINK,
    FUSE_OPEN,
    FUSE_READ,
    FUSE_WRITE,
    FUSE_STATFS,
    FUSE_RELEASE,
    FUSE_FSYNC,
    FUSE_SETXATTR,
    FUSE_GETXATTR,
    FUSE_LISTXATTR,
    FUSE_REMOVEXATTR,
    FUSE_FLUSH,
    FUSE_INIT,
    FUSE_OPENDIR,
    FUSE_READDIR,
    FUSE_RELEASEDIR,
    FUSE_FSYNCDIR,
    FUSE_GETLK,
    FUSE_SETLK,
    FUSE_SETLKW,
    FUSE_ACCESS,
    FUSE_CREATE,
    FUSE_INTERRUPT,
    FUSE_BMAP,
    FUSE_DESTROY,
    FUSE_IOCTL,
    FUSE_POLL,
    FUSE_NOTIFY_REPLY,
    FUSE_BATCH_FORGET,
    FUSE_FALLOCATE,
    FUSE_READDIRPLUS,
    FUSE_RENAME2,
    FUSE_LSEEK,
    FUSE_COPY_FILE_RANGE,
    FUSE_SETUPMAPPING,
    FUSE_REMOVEMAPPING,
    FUSE_SYNCFS,
    FUSE_TMPFILE,
}

impl fuse_opcode {
    /// The number that stands for the operation on the wire.
    pub open spec fn spec_code(self) -> u32 {
        match self {
            fuse_opcode::FUSE_LOOKUP => 1,
            fuse_opcode::FUSE_FORGET => 2,
            fuse_opcode::FUSE_GETATTR => 3,
            fuse_opcode::FUSE_SETATTR => 4,
            fuse_opcode::FUSE_READLINK => 5,
            fuse_opcode::FUSE_SYMLINK => 6,
            fuse_opcode::FUSE_MKNOD => 8,
            fuse_opcode::FUSE_MKDIR => 9,
            fuse_opcode::FUSE_UNLINK => 10,
            fuse_opcode::FUSE_RMDIR => 11,
            fuse_opcode::FUSE_RENAME => 12,
            fuse_opcode::FUSE_LINK => 13,
            fuse_opcode::FUSE_OPEN => 14,
            fuse_opcode::FUSE_READ => 15,
            fuse_opcode::FUSE_WRITE => 16,
            fuse_opcode::FUSE_STATFS => 17,
            fuse_opcode::FUSE_RELEASE => 18,
            fuse_opcode::FUSE_FSYNC => 20,
            fuse_opcode::FUSE_SETXATTR => 21,
            fuse_opcode::FUSE_GETXATTR => 22,
            fuse_opcode::FUSE_LISTXATTR => 23,
            fuse_opcode::FUSE_REMOVEXATTR => 24,
            fuse_opcode::FUSE_FLUSH => 25,
            fuse_opcode::FUSE_INIT => 26,
            fuse_opcode::FUSE_OPENDIR => 27,
            fuse_opcode::FUSE_READDIR => 28,
            fuse_opcode::FUSE_RELEASEDIR => 29,
            fuse_opcode::FUSE_FSYNCDIR => 30,
            fuse_opcode::FUSE_GETLK => 31,
            fuse_opcode::FUSE_SETLK => 32,
            fuse_opcode::FUSE_SETLKW => 33,
            fuse_opcode::FUSE_ACCESS => 34,
            fuse_opcode::FUSE_CREATE => 35,
            fuse_opcode::FUSE_INTERRUPT => 36,
            fuse_opcode::FUSE_BMAP => 37,
            fuse_opcode::FUSE_DESTROY => 38,
            fuse_opcode::FUSE_IOCTL => 39,
            fuse_opcode::FUSE_POLL => 40,
            fuse_opcode::FUSE_NOTIFY_REPLY => 41,
            fuse_opcode::FUSE_BATCH_FORGET => 42,
            fuse_opcode::FUSE_FALLOCATE => 43,
            fuse_opcode::FUSE_READDIRPLUS => 44,
            fuse_opcode::FUSE_RENAME2 => 45,
            fuse_opcode::FUSE_LSEEK => 46,
            fuse_opcode::FUSE_COPY_FILE_RANGE => 47,
            fuse_opcode::FUSE_SETUPMAPPING => 48,
            fuse_opcode::FUSE_REMOVEMAPPING => 49,
            fuse_opcode::FUSE_SYNCFS => 50,
            fuse_opcode::FUSE_TMPFILE => 51,
        }
    }

    /// The number that stands for the operation on the wire.
    pub fn code(&self) -> (r: u32)
        ensures
            r == self.spec_code(),
    {
        match self {
            fuse_opcode::FUSE_LOOKUP => 1,
            fuse_opcode::FUSE_FORGET => 2,
            fuse_opcode::FUSE_GETATTR => 3,
            fuse_opcode::FUSE_SETATTR => 4,
            fuse_opcode::FUSE_READLINK => 5,
            fuse_opcode::FUSE_SYMLINK => 6,
            fuse_opcode::FUSE_MKNOD => 8,
            fuse_opcode::FUSE_MKDIR => 9,
            fuse_opcode::FUSE_UNLINK => 10,
            fuse_opcode::FUSE_RMDIR => 11,
            fuse_opcode::FUSE_RENAME => 12,
            fuse_opcode::FUSE_LINK => 13,
            fuse_opcode::FUSE_OPEN => 14,
            fuse_opcode::FUSE_READ => 15,
            fuse_opcode::FUSE_WRITE => 16,
            fuse_opcode::FUSE_STATFS => 17,
            fuse_opcode::FUSE_RELEASE => 18,
            fuse_opcode::FUSE_FSYNC => 20,
            fuse_opcode::FUSE_SETXATTR => 21,
            fuse_opcode::FUSE_GETXATTR => 22,
            fuse_opcode::FUSE_LISTXATTR => 23,
            fuse_opcode::FUSE_REMOVEXATTR => 24,
            fuse_opcode::FUSE_FLUSH => 25,
            fuse_opcode::FUSE_INIT => 26,
            fuse_opcode::FUSE_OPENDIR => 27,
            fuse_opcode::FUSE_READDIR => 28,
            fuse_opcode::FUSE_RELEASEDIR => 29,
            fuse_opcode::FUSE_FSYNCDIR => 30,
            fuse_opcode::FUSE_GETLK => 31,
            fuse_opcode::FUSE_SETLK => 32,
            fuse_opcode::FUSE_SETLKW => 33,
            fuse_opcode::FUSE_ACCESS => 34,
            fuse_opcode::FUSE_CREATE => 35,
            fuse_opcode::FUSE_INTERRUPT => 36,
            fuse_opcode::FUSE_BMAP => 37,
            fuse_opcode::FUSE_DESTROY => 38,
            fuse_opcode::FUSE_IOCTL => 39,
            fuse_opcode::FUSE_POLL => 40,
            fuse_opcode::FUSE_NOTIFY_REPLY => 41,
            fuse_opcode::FUSE_BATCH_FORGET => 42,
            fuse_opcode::FUSE_FALLOCATE => 43,
            fuse_opcode::FUSE_READDIRPLUS => 44,
            fuse_opcode::FUSE_RENAME2 => 45,
            fuse_opcode::FUSE_LSEEK => 46,
            fuse_opcode::FUSE_COPY_FILE_RANGE => 47,
            fuse_opcode::FUSE_SETUPMAPPING => 48,
            fuse_opcode::FUSE_REMOVEMAPPING => 49,
            fuse_opcode::FUSE_SYNCFS => 50,
            fuse_opcode::FUSE_TMPFILE => 51,
        }
    }
}

/// The header that starts every request sent to the daemon.
#[allow(non_camel_case_types)]
#[derive(Debug, Clone, Copy)]
pub struct fuse_in_header {
    pub len: u32,
    pub opcode: u32,
    pub unique: u64,
    pub nodeid: u64,
    pub uid: u32,
    pub gid: u32,
    pub pid: u32,
    pub padding: u32,
}

impl fuse_in_header {
    /// Builds the structure from its fields.
    pub fn new(len: u32, opcode: u32, unique: u64, nodeid: u64, uid: u32, gid: u32, pid: u32, padding: u32) -> (r: Self)
        ensures
            r == (fuse_in_header { len: len, opcode: opcode, unique: unique, nodeid: nodeid, uid: uid, gid: gid, pid: pid, padding: padding }),
    {
        fuse_in_header { len, opcode, unique, nodeid, uid, gid, pid, padding }
    }

    /// The 36 bytes that `write_to` stores, in wire order.
    pub open spec fn spec_bytes(&self) -> Seq<u8> {
        le_u32(self.len) + le_u32(self.opcode) + le_u64(self.unique) + le_u64(self.nodeid) + le_u32(self.uid) + le_u32(self.gid) + le_u32(self.pid)
    }

    /// The bytes of `spec_bytes` as a vector.
    pub(crate) fn to_bytes(&self) -> (v: Vec<u8>)
        ensures
            v@ == self.spec_bytes(),
            v@.len() == 36,
    {
        let mut v: Vec<u8> = Vec::new();
        push_u32(&mut v, self.len);
        push_u32(&mut v, self.opcode);
        push_u64(&mut v, self.unique);
        push_u64(&mut v, self.nodeid);
        push_u32(&mut v, self.uid);
        push_u32(&mut v, self.gid);
        push_u32(&mut v, self.pid);
        assert(v@ =~= self.spec_bytes());
        v
    }

    /// Stores the little-endian encoding in the first 36 bytes of `buf`;
    /// the rest of `buf` is left as it was.
    pub fn write_to(&self, buf: &mut [u8])
        requires
            old(buf)@.len() >= 36,
        ensures
            final(buf)@ == splice(old(buf)@, 0, self.spec_bytes()),
    {
        let v = self.to_bytes();
        copy_into(buf, 0, v.as_slice());
    }

}

/// The argument of an `OPEN` request.
#[allow(non_camel_case_types)]
#[derive(Debug, Clone, Copy)]
pub struct fuse_open_in {
    pub flags: u32,
    pub open_flags: u32,
}

impl fuse_open_in {
    /// Builds the structure from its fields.
    pub fn new(flags: u32, open_flags: u32) -> (r: Self)
        ensures
            r == (fuse_open_in { flags: flags, open_flags: open_flags }),
    {
        fuse_open_in { flags, open_flags }
    }

    /// The 8 bytes that `write_to` stores, in wire order.
    pub open spec fn spec_bytes(&self) -> Seq<u8> {
        le_u32(self.flags) + le_u32(self.open_flags)
    }

    /// The bytes of `spec_bytes` as a vector.
    pub(crate) fn to_bytes(&self) -> (v: Vec<u8>)
        ensures
            v@ == self.spec_bytes(),
            v@.len() == 8,
    {
        let mut v: Vec<u8> = Vec::new();
        push_u32(&mut v, self.flags);
        push_u32(&mut v, self.open_flags);
        assert(v@ =~= self.spec_bytes());
        v
    }

    /// Stores the little-endian encoding in the first 8 bytes of `buf`;
    /// the rest of `buf` is left as it was.
    pub fn write_to(&self, buf: &mut [u8])
        requires
            old(buf)@.len() >= 8,
        ensures
            final(buf)@ == splice(old(buf)@, 0, self.spec_bytes()),
    {
        let v = self.to_bytes();
        copy_into(buf, 0, v.as_slice());
    }

}

/// The reply to an `OPEN` request.
#[allow(non_camel_case_types)]
#[derive(Debug, Clone, Copy)]
pub struct fuse_open_out {
    pub fh: u64,
    pub open_flags: u32,
    pub padding: u32,
}

impl fuse_open_out {
    /// Builds the structure from its fields; `padding` is zero.
    pub fn new(fh: u64, open_flags: u32) -> (r: Self)
        ensures
            r == (fuse_open_out { fh: fh, open_flags: open_flags, padding: 0 }),
    {
        fuse_open_out { fh, open_flags, padding: 0 }
    }

    /// The 12 bytes that `write_to` stores, in wire order.
    pub open spec fn spec_bytes(&self) -> Seq<u8> {
        le_u64(self.fh) + le_u32(self.open_flags)
    }

    /// The bytes of `spec_bytes` as a vector.
    pub(crate) fn to_bytes(&self) -> (v: Vec<u8>)
        ensures
            v@ == self.spec_bytes(),
            v@.len() == 12,
    {
        let mut v: Vec<u8> = Vec::new();
        push_u64(&mut v, self.fh);
        push_u32(&mut v, self.open_flags);
        assert(v@ =~= self.spec_bytes());
        v
    }

    /// Stores the little-endian encoding in the first 12 bytes of `buf`;
    /// the rest of `buf` is left as it was.
    pub fn write_to(&self, buf: &mut [u8])
        requires
            old(buf)@.len() >= 12,
        ensures
            final(buf)@ == splice(old(buf)@, 0, self.spec_bytes()),
    {
        let v = self.to_bytes();
        copy_into(buf, 0, v.as_slice());
    }

}

/// The argument of a `READ` request.
#[allow(non_camel_case_types)]
#[derive(Debug, Clone, Copy)]
pub struct fuse_read_in {
    pub fh: u64,
    pub offset: u64,
    pub size: u32,
    pub read_flags: u32,
    pub lock_owner: u64,
    pub flags: u32,
    pub padding: u32,
}

impl fuse_read_in {
    /// Builds the structure from its fields; `padding` is zero.
    pub fn new(fh: u64, offset: u64, size: u32, read_flags: u32, lock_owner: u64, flags: u32) -> (r: Self)
        ensures
            r == (fuse_read_in { fh: fh, offset: offset, size: size, read_flags: read_flags, lock_owner: lock_owner, flags: flags, padding: 0 }),
    {
        fuse_read_in { fh, offset, size, read_flags, lock_owner, flags, padding: 0 }
    }

    /// The 36 bytes that `write_to` stores, in wire order.
    pub open spec fn spec_bytes(&self) -> Seq<u8> {
        le_u64(self.fh) + le_u64(self.offset) + le_u32(self.size) + le_u32(self.read_flags) + le_u64(self.lock_owner) + le_u32(self.flags)
    }

    /// The bytes of `spec_bytes` as a vector.
    pub(crate) fn to_bytes(&self) -> (v: Vec<u8>)
        ensures
            v@ == self.spec_bytes(),
            v@.len() == 36,
    {
        let mut v: Vec<u8> = Vec::new();
        push_u64(&mut v, self.fh);
        push_u64(&mut v, self.offset);
        push_u32(&mut v, self.size);
        push_u32(&mut v, self.read_flags);
        push_u64(&mut v, self.lock_owner);
        push_u32(&mut v, self.flags);
        assert(v@ =~= self.spec_bytes());
        v
    }

    /// Stores the little-endian encoding in the first 36 bytes of `buf`;
    /// the rest of `buf` is left as it was.
    pub fn write_to(&self, buf: &mut [u8])
        requires
            old(buf)@.len() >= 36,
        ensures
            final(buf)@ == splice(old(buf)@, 0, self.spec_bytes()),
    {
        let v = self.to_bytes();
        copy_into(buf, 0, v.as_slice());
    }

}

/// The argument of a `WRITE` request.
#[allow(non_camel_case_types)]
#[derive(Debug, Clone, Copy)]
pub struct fuse_write_in {
    pub fh: u64,
    pub offset: u64,
    pub size: u32,
    pub write_flags: u32,
    pub lock_owner: u64,
    pub flags: u32,
    pub padding: u32,
}

impl fuse_write_in {
    /// Builds the structure from its fields; `padding` is zero.
    pub fn new(fh: u64, offset: u64, size: u32, write_flags: u32, lock_owner: u64, flags: u32) -> (r: Self)
        ensures
            r == (fuse_write_in { fh: fh, offset: offset, size: size, write_flags: write_flags, lock_owner: lock_owner, flags: flags, padding: 0 }),
    {
        fuse_write_in { fh, offset, size, write_flags, lock_owner, flags, padding: 0 }
    }

    /// The 36 bytes that `write_to` stores, in wire order.
    pub open spec fn spec_bytes(&self) -> Seq<u8> {
        le_u64(self.fh) + le_u64(self.offset) + le_u32(self.size) + le_u32(self.write_flags) + le_u64(self.lock_owner) + le_u32(self.flags)
    }

    /// The bytes of `spec_bytes` as a vector.
    pub(crate) fn to_bytes(&self) -> (v: Vec<u8>)
        ensures
            v@ == self.spec_bytes(),
            v@.len() == 36,
    {
        let mut v: Vec<u8> = Vec::new();
        push_u64(&mut v, self.fh);
        push_u64(&mut v, self.offset);
        push_u32(&mut v, self.size);
        push_u32(&mut v, self.write_flags);
        push_u64(&mut v, self.lock_owner);
        push_u32(&mut v, self.flags);
        assert(v@ =~= self.spec_bytes());
        v
    }

    /// Stores the little-endian encoding in the first 36 bytes of `buf`;
    /// the rest of `buf` is left as it was.
    pub fn write_to(&self, buf: &mut [u8])
        requires
            old(buf)@.len() >= 36,
        ensures
            final(buf)@ == splice(old(buf)@, 0, self.spec_bytes()),
    {
        let v = self.to_bytes();
        copy_into(buf, 0, v.as_slice());
    }

}

/// The header that starts every reply of the daemon.
#[allow(non_camel_case_types)]
#[derive(Debug, Clone, Copy)]
pub struct fuse_out_header {
    pub len: u32,
    pub error: i32,
    pub unique: u64,
}

impl fuse_out_header {
    /// Builds the structure from its fields.
    pub fn new(len: u32, error: i32, unique: u64) -> (r: Self)
        ensures
            r == (fuse_out_header { len: len, error: error, unique: unique }),
    {
        fuse_out_header { len, error, unique }
    }

    /// The 16 bytes that `write_to` stores, in wire order.
    pub open spec fn spec_bytes(&self) -> Seq<u8> {
        le_u32(self.len) + le_i32(self.error) + le_u64(self.unique)
    }

    /// The bytes of `spec_bytes` as a vector.
    pub(crate) fn to_bytes(&self) -> (v: Vec<u8>)
        ensures
            v@ == self.spec_bytes(),
            v@.len() == 16,
    {
        let mut v: Vec<u8> = Vec::new();
        push_u32(&mut v, self.len);
        push_i32(&mut v, self.error);
        push_u64(&mut v, self.unique);
        assert(v@ =~= self.spec_bytes());
        v
    }

    /// Stores the little-endian encoding in the first 16 bytes of `buf`;
    /// the rest of `buf` is left as it was.
    pub fn write_to(&self, buf: &mut [u8])
        requires
            old(buf)@.len() >= 16,
        ensures
            final(buf)@ == splice(old(buf)@, 0, self.spec_bytes()),
    {
        let v = self.to_bytes();
        copy_into(buf, 0, v.as_slice());
    }

}

/// The reply to a `WRITE` request.
#[allow(non_camel_case_types)]
#[derive(Debug, Clone, Copy)]
pub struct fuse_write_out {
    pub size: u32,
    pub padding: u32,
}

impl fuse_write_out {
    /// Builds the structure from its fields; `padding` is zero.
    pub fn new(size: u32) -> (r: Self)
        ensures
            r == (fuse_write_out { size: size, padding: 0 }),
    {
        fuse_write_out { size, padding: 0 }
    }

    /// The 4 bytes that `write_to` stores, in wire order.
    pub open spec fn spec_bytes(&self) -> Seq<u8> {
        le_u32(self.size)
    }

    /// The bytes of `spec_bytes` as a vector.
    pub(crate) fn to_bytes(&self) -> (v: Vec<u8>)
        ensures
            v@ == self.spec_bytes(),
            v@.len() == 4,
    {
        let mut v: Vec<u8> = Vec::new();
        push_u32(&mut v, self.size);
        assert(v@ =~= self.spec_bytes());
        v
    }

    /// Stores the little-endian encoding in the first 4 bytes of `buf`;
    /// the rest of `buf` is left as it was.
    pub fn write_to(&self, buf: &mut [u8])
        requires
            old(buf)@.len() >= 4,
        ensures
            final(buf)@ == splice(old(buf)@, 0, self.spec_bytes()),
    {
        let v = self.to_bytes();
        copy_into(buf, 0, v.as_slice());
    }

}

} // verus!
