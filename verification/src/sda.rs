//! A stand-in for the exFAT block device `/dev/sda`: reads and writes
//! touch nothing and report the whole buffer as done.

use vstd::prelude::*;
use crate::types::{NodeAttr, NodeType};

verus! {

/// The block device `/dev/sda`, backed by memory that reads and writes
/// leave alone.
pub struct SdaDev {
    data: Vec<u8>,
}

impl View for SdaDev {
    type V = Seq<u8>;

    closed spec fn view(&self) -> Seq<u8> {
        self.data@
    }
}

impl SdaDev {
    /// A device whose backing memory holds 100000000 zero bytes.
    pub fn new() -> (r: Self)
        ensures
            r@ == Seq::new(100000000, |i: int| 0u8),
    {
        SdaDev { data: crate::le::zero_bytes(100000000) }
    }

    /// The attributes of the device: a character device with the default
    /// file permission bits `0o666`, size and blocks zero.
    pub fn get_attr(&self) -> (r: NodeAttr)
        ensures
            r == (NodeAttr { perm: 0o666, ty: NodeType::CharDevice, size: 0, blocks: 0 }),
    {
        NodeAttr { perm: 0o666, ty: NodeType::CharDevice, size: 0, blocks: 0 }
    }

    /// A read leaves `buf` as it is and reports its whole length as read.
    pub fn read_at(&self, _offset: u64, buf: &mut [u8]) -> (r: usize)
        ensures
            final(buf)@ == old(buf)@,
            r == old(buf)@.len(),
    {
        buf.len()
    }

    /// A write stores nothing and reports the whole length of `buf` as
    /// written.
    pub fn write_at(&self, _offset: u64, buf: &[u8]) -> (r: usize)
        ensures
            r == buf@.len(),
    {
        buf.len()
    }

    /// Truncation changes nothing.
    pub fn truncate(&self, _size: u64) {
    }
}

} // verus!
