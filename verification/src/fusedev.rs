//! A stand-in for `/dev/fuse` backed by memory: writes are stored at their
//! offset modulo 1052672, and every read hands back the stored bytes with
//! a fixed `INIT` request header written over their start.

use vstd::prelude::*;
use crate::le::{splice, put_bytes, subrange_vec, copy_into};
use crate::fuse_dev::fuse_in_header;
use crate::types::{NodeAttr, NodeType};

verus! {

/// The number of bytes of backing memory.
pub open spec fn backing_len() -> nat {
    100000000
}

/// The span of offsets that reads and writes wrap around.
pub open spec fn wrap() -> nat {
    1052672
}

/// The header that every read writes over the start of its buffer.
pub open spec fn read_header() -> fuse_in_header {
    fuse_in_header {
        len: 32,
        opcode: 26,
        unique: 37,
        nodeid: 2,
        uid: 0,
        gid: 0,
        pid: 0,
        padding: 0,
    }
}

/// A device that behaves like `/dev/fuse`, backed by memory.
pub struct FuseDev {
    data: Vec<u8>,
    cnt: u64,
}

impl View for FuseDev {
    type V = Seq<u8>;

    closed spec fn view(&self) -> Seq<u8> {
        self.data@
    }
}

impl FuseDev {
    /// The backing memory holds 100000000 bytes.
    pub open spec fn wf(&self) -> bool {
        self@.len() == backing_len()
    }

    /// A device whose backing memory holds 100000000 zero bytes.
    pub fn new() -> (r: Self)
        ensures
            r.wf(),
            r@ == Seq::new(backing_len(), |i: int| 0u8),
    {
        let data = crate::le::zero_bytes(100000000);
        FuseDev { data, cnt: 0 }
    }

    /// The attributes of the device: a character device with the default
    /// file permission bits `0o666`, size and blocks zero.
    pub fn get_attr(&self) -> (r: NodeAttr)
        ensures
            r == (NodeAttr { perm: 0o666, ty: NodeType::CharDevice, size: 0, blocks: 0 }),
    {
        NodeAttr { perm: 0o666, ty: NodeType::CharDevice, size: 0, blocks: 0 }
    }

    /// Fills `buf` with the stored bytes from `offset` modulo 1052672 on,
    /// then writes the `INIT` request header over its first 36 bytes; the
    /// whole of `buf` counts as read.
    pub fn read_at(&self, offset: u64, buf: &mut [u8]) -> (r: usize)
        requires
            self.wf(),
            36 <= old(buf)@.len(),
            (offset % 1052672) + old(buf)@.len() <= backing_len(),
        ensures
            final(buf)@ == splice(
                self@.subrange((offset % 1052672) as int, (offset % 1052672) + old(buf)@.len()),
                0,
                read_header().spec_bytes(),
            ),
            r == old(buf)@.len(),
    {
        let off = (offset % 1052672) as usize;
        let len = buf.len();
        let stored = subrange_vec(self.data.as_slice(), off, off + len);
        copy_into(buf, 0, stored.as_slice());
        assert(buf@ =~= stored@);
        let fusein = fuse_in_header::new(32, 26, 37, 2, 0, 0, 0, 0);
        fusein.write_to(buf);
        len
    }

    /// Stores `buf` at `offset` modulo 1052672; the whole of `buf` counts
    /// as written.
    pub fn write_at(&mut self, offset: u64, buf: &[u8]) -> (r: usize)
        requires
            old(self).wf(),
            (offset % 1052672) + buf@.len() <= backing_len(),
        ensures
            final(self).wf(),
            final(self)@ == splice(old(self)@, (offset % 1052672) as int, buf@),
            r == buf@.len(),
    {
        let off = (offset % 1052672) as usize;
        put_bytes(&mut self.data, off, buf);
        buf.len()
    }

    /// Truncation changes nothing.
    pub fn truncate(&self, _size: u64) {
    }
}

/// What a read gives back of a write at the same offset: the written bytes,
/// except the first 36, over which the `INIT` request header is written.
pub proof fn lemma_read_after_write(before: Seq<u8>, offset: u64, written: Seq<u8>)
    requires
        before.len() == backing_len(),
        36 <= written.len(),
        (offset % 1052672) + written.len() <= backing_len(),
    ensures
        ({
            let off = (offset % 1052672) as int;
            let after = splice(before, off, written);
            splice(after.subrange(off, off + written.len()), 0, read_header().spec_bytes())
                == splice(written, 0, read_header().spec_bytes())
        }),
{
    let off = (offset % 1052672) as int;
    let after = splice(before, off, written);
    assert(after.subrange(off, off + written.len()) =~= written);
}

} // verus!
