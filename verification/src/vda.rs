//! The block arithmetic of the VDA file system node: how a read or write
//! at a byte offset is cut into pieces of 512-byte blocks, and how each
//! piece moves between a block and the caller's buffer. The block reads
//! and writes themselves are left to the caller.

use vstd::prelude::*;
use crate::le::{splice, zeros, zero_bytes, put_bytes, subrange_vec, copy_into};
use crate::types::{NodeAttr, NodeType};

verus! {

/// The size of a block in bytes.
pub const BLOCK_SIZE: usize = 512;

/// One piece of a transfer: `len` bytes at `start` within block `block`,
/// and at `pos` within the caller's buffer.
#[derive(Debug, Clone, Copy, PartialEq, Eq, Structural)]
pub struct BlockSpan {
    pub block: u64,
    pub start: usize,
    pub len: usize,
    pub pos: usize,
}

/// The pieces of a transfer of `remain` bytes from byte `cur` of the device
/// and byte `pos` of the buffer: each piece takes the block that holds
/// `cur`, starts at `cur` modulo 512 and is 512 bytes long, or what is left
/// if that is less.
pub open spec fn spec_plan(cur: int, pos: int, remain: int) -> Seq<BlockSpan>
    decreases remain,
{
    if remain <= 0 {
        Seq::empty()
    } else {
        let c = if remain < 512 {
            remain
        } else {
            512
        };
        seq![
            BlockSpan {
                block: (cur / 512) as u64,
                start: (cur % 512) as usize,
                len: c as usize,
                pos: pos as usize,
            },
        ] + spec_plan(cur + c, pos + c, remain - c)
    }
}

/// Whether every piece of a transfer of `len` bytes at `offset` lies within
/// its block: the transfer starts on a block boundary or stays within one
/// block.
pub open spec fn transfer_fits(offset: int, len: int) -> bool {
    len == 0 || offset % 512 == 0 || offset % 512 + len <= 512
}

/// The VDA file system node.
pub struct VdaNode {}

impl VdaNode {
    /// The node.
    pub fn new() -> (r: Self) {
        VdaNode {  }
    }

    /// Every node reports a block device with permission bits `0o777`,
    /// size 67108864 and 131072 blocks.
    pub fn get_attr(&self) -> (r: NodeAttr)
        ensures
            r == (NodeAttr {
                perm: 0o777,
                ty: NodeType::BlockDevice,
                size: 67108864,
                blocks: 131072,
            }),
    {
        NodeAttr { perm: 0o777, ty: NodeType::BlockDevice, size: 67108864, blocks: 131072 }
    }

    /// Cuts a transfer of `len` bytes at byte `offset` into block pieces.
    pub fn plan(offset: u64, len: usize) -> (r: Vec<BlockSpan>)
        requires
            offset + len <= u64::MAX,
            transfer_fits(offset as int, len as int),
        ensures
            r@ == spec_plan(offset as int, 0, len as int),
            forall|k: int|
                0 <= k < r@.len() ==> r@[k].start + r@[k].len <= 512 && r@[k].pos + r@[k].len
                    <= len,
    {
        let mut r: Vec<BlockSpan> = Vec::new();
        let mut cur = offset;
        let mut pos: usize = 0;
        let mut remain = len;
        while remain > 0
            invariant
                cur == offset + pos,
                pos + remain == len,
                offset + len <= u64::MAX,
                remain == 0 || cur % 512 == 0 || cur % 512 + remain <= 512,
                r@ + spec_plan(cur as int, pos as int, remain as int) == spec_plan(
                    offset as int,
                    0,
                    len as int,
                ),
                forall|k: int|
                    0 <= k < r@.len() ==> r@[k].start + r@[k].len <= 512 && r@[k].pos
                        + r@[k].len <= pos,
            decreases remain,
        {
            let c = if remain < 512 {
                remain
            } else {
                512
            };
            let span = BlockSpan { block: cur / 512, start: (cur % 512) as usize, len: c, pos };
            let ghost old_r = r@;
            let ghost rest = spec_plan(cur + c, pos + c, remain - c);
            assert(spec_plan(cur as int, pos as int, remain as int) == seq![span] + rest);
            r.push(span);
            assert(r@ + rest =~= old_r + (seq![span] + rest));
            cur = cur + c as u64;
            pos = pos + c;
            remain = remain - c;
        }
        assert(r@ =~= spec_plan(offset as int, 0, len as int));
        r
    }

    /// The read side of a piece: copies the piece's bytes of `block` (the
    /// 512 bytes read from the device) into `buf` at the piece's position.
    pub fn copy_from_block(buf: &mut [u8], span: BlockSpan, block: &[u8])
        requires
            block@.len() == 512,
            span.start + span.len <= 512,
            span.pos + span.len <= old(buf)@.len(),
        ensures
            final(buf)@ == splice(
                old(buf)@,
                span.pos as int,
                block@.subrange(span.start as int, span.start + span.len),
            ),
    {
        let piece = subrange_vec(block, span.start, span.start + span.len);
        copy_into(buf, span.pos, piece.as_slice());
    }

    /// The write side of a piece: the 512 bytes to write to the piece's
    /// block, zero but for the piece's bytes of `buf` at the piece's start.
    pub fn block_image(buf: &[u8], span: BlockSpan) -> (r: Vec<u8>)
        requires
            span.start + span.len <= 512,
            span.pos + span.len <= buf@.len(),
        ensures
            r@ == splice(
                zeros(512),
                span.start as int,
                buf@.subrange(span.pos as int, span.pos + span.len),
            ),
    {
        // Reading the length tells Verus that it fits in `usize`, which bounds the piece's end.
        let _len = buf.len();
        let mut v = zero_bytes(512);
        let piece = subrange_vec(buf, span.pos, span.pos + span.len);
        put_bytes(&mut v, span.start, piece.as_slice());
        v
    }
}

/// Block `b` of the device contents `dev`.
pub open spec fn block_of(dev: Seq<u8>, b: int) -> Seq<u8> {
    dev.subrange(b * 512, b * 512 + 512)
}

/// `buf` after each piece of `spans` is copied in from its block of `dev`,
/// in order, as `copy_from_block` does.
pub open spec fn apply_reads(buf: Seq<u8>, spans: Seq<BlockSpan>, dev: Seq<u8>) -> Seq<u8>
    decreases spans.len(),
{
    if spans.len() == 0 {
        buf
    } else {
        let p = spans[0];
        apply_reads(
            splice(buf, p.pos as int, block_of(dev, p.block as int).subrange(p.start as int, p.start + p.len)),
            spans.drop_first(),
            dev,
        )
    }
}

/// The device contents `dev` after the block of each piece of `spans` is
/// overwritten, in order, with the image that `block_image` makes of `buf`.
pub open spec fn apply_writes(dev: Seq<u8>, spans: Seq<BlockSpan>, buf: Seq<u8>) -> Seq<u8>
    decreases spans.len(),
{
    if spans.len() == 0 {
        dev
    } else {
        let p = spans[0];
        apply_writes(
            splice(
                dev,
                p.block as int * 512,
                splice(zeros(512), p.start as int, buf.subrange(p.pos as int, p.pos + p.len)),
            ),
            spans.drop_first(),
            buf,
        )
    }
}

/// The block that holds byte `cur` lies within a device whose length is a
/// multiple of 512 and exceeds `cur`, and `cur` sits at its own offset in it.
proof fn lemma_block_bounds(cur: int, dev_len: int)
    requires
        0 <= cur < dev_len,
        dev_len % 512 == 0,
    ensures
        (cur / 512) * 512 + cur % 512 == cur,
        (cur / 512) * 512 + 512 <= dev_len,
        0 <= cur % 512 < 512,
{
    assert((cur / 512) * 512 + cur % 512 == cur) by (nonlinear_arith)
        requires
            0 <= cur,
    ;
    assert((cur / 512) * 512 + 512 <= dev_len) by (nonlinear_arith)
        requires
            0 <= cur < dev_len,
            dev_len % 512 == 0,
    ;
}

proof fn lemma_reads_from(buf: Seq<u8>, cur: int, pos: int, remain: int, dev: Seq<u8>)
    requires
        0 <= cur,
        0 <= pos,
        0 <= remain,
        cur + remain <= u64::MAX,
        pos + remain <= usize::MAX,
        pos + remain <= buf.len(),
        cur + remain <= dev.len(),
        dev.len() % 512 == 0,
        remain == 0 || cur % 512 == 0 || cur % 512 + remain <= 512,
    ensures
        apply_reads(buf, spec_plan(cur, pos, remain), dev) == splice(
            buf,
            pos,
            dev.subrange(cur, cur + remain),
        ),
    decreases remain,
{
    if remain <= 0 {
        assert(splice(buf, pos, dev.subrange(cur, cur)) =~= buf);
    } else {
        let c = if remain < 512 {
            remain
        } else {
            512
        };
        lemma_block_bounds(cur, dev.len() as int);
        let b = cur / 512;
        let piece = block_of(dev, b).subrange(cur % 512, cur % 512 + c);
        assert(piece =~= dev.subrange(cur, cur + c));
        let plan = spec_plan(cur, pos, remain);
        assert(plan[0] == BlockSpan {
            block: b as u64,
            start: (cur % 512) as usize,
            len: c as usize,
            pos: pos as usize,
        });
        assert(plan.drop_first() =~= spec_plan(cur + c, pos + c, remain - c));
        let buf1 = splice(buf, pos, piece);
        if remain > 512 {
            assert((cur + c) % 512 == 0);
        }
        lemma_reads_from(buf1, cur + c, pos + c, remain - c, dev);
        assert(splice(buf1, pos + c, dev.subrange(cur + c, cur + remain)) =~= splice(
            buf,
            pos,
            dev.subrange(cur, cur + remain),
        ));
    }
}

/// A whole read: carrying out every piece of `plan(offset, len)` with
/// `copy_from_block` on a buffer of `len` bytes, over device contents
/// `dev` (whole blocks, reaching past the transfer), leaves in the buffer
/// the device's bytes from `offset` to `offset + len`.
pub proof fn lemma_read_transfer(buf: Seq<u8>, offset: u64, len: usize, dev: Seq<u8>)
    requires
        buf.len() == len,
        offset + len <= u64::MAX,
        transfer_fits(offset as int, len as int),
        offset + len <= dev.len(),
        dev.len() % 512 == 0,
    ensures
        apply_reads(buf, spec_plan(offset as int, 0, len as int), dev) == dev.subrange(
            offset as int,
            offset + len,
        ),
{
    lemma_reads_from(buf, offset as int, 0, len as int, dev);
    assert(splice(buf, 0, dev.subrange(offset as int, offset + len)) =~= dev.subrange(
        offset as int,
        offset + len,
    ));
}

/// The end of the last block that a transfer of `remain` bytes from byte
/// `cur` touches.
pub open spec fn end_of_blocks(cur: int, remain: int) -> int {
    ((cur + remain + 511) / 512) * 512
}

proof fn lemma_writes_from(dev: Seq<u8>, cur: int, pos: int, remain: int, buf: Seq<u8>)
    requires
        0 <= cur,
        0 <= pos,
        0 <= remain,
        cur + remain <= u64::MAX,
        pos + remain <= usize::MAX,
        pos + remain <= buf.len(),
        cur + remain <= dev.len(),
        dev.len() % 512 == 0,
        remain == 0 || cur % 512 == 0 || cur % 512 + remain <= 512,
    ensures
        ({
            let after = apply_writes(dev, spec_plan(cur, pos, remain), buf);
            &&& after.len() == dev.len()
            &&& after.subrange(cur, cur + remain) == buf.subrange(pos, pos + remain)
            &&& forall|i: int| 0 <= i < (cur / 512) * 512 ==> after[i] == dev[i]
            &&& forall|i: int| end_of_blocks(cur, remain) <= i < dev.len() ==> after[i] == dev[i]
        }),
    decreases remain,
{
    if remain <= 0 {
        assert(buf.subrange(pos, pos) =~= dev.subrange(cur, cur));
    } else {
        let c = if remain < 512 {
            remain
        } else {
            512
        };
        lemma_block_bounds(cur, dev.len() as int);
        let b = cur / 512;
        let plan = spec_plan(cur, pos, remain);
        assert(plan.drop_first() =~= spec_plan(cur + c, pos + c, remain - c));
        let img = splice(zeros(512), cur % 512, buf.subrange(pos, pos + c));
        let dev1 = splice(dev, b * 512, img);
        assert(dev1.len() == dev.len());
        if remain > 512 {
            assert((cur + c) % 512 == 0);
            assert((cur + c) / 512 * 512 == cur + c) by (nonlinear_arith)
                requires
                    (cur + c) % 512 == 0,
                    cur + c >= 0,
            ;
        }
        lemma_writes_from(dev1, cur + c, pos + c, remain - c, buf);
        let after = apply_writes(dev1, spec_plan(cur + c, pos + c, remain - c), buf);
        assert forall|i: int| cur <= i < cur + c implies after[i] == buf[pos + i - cur] by {
            if remain - c > 0 {
                assert(i < ((cur + c) / 512) * 512);
            }
            assert(dev1[i] == img[i - b * 512]);
        }
        assert forall|i: int| 0 <= i < b * 512 implies after[i] == dev[i] by {
            if remain - c > 0 {
                assert(i < ((cur + c) / 512) * 512);
            }
        }
        assert(b * 512 + 512 <= end_of_blocks(cur, remain)) by (nonlinear_arith)
            requires
                b * 512 + cur % 512 == cur,
                0 <= cur % 512 < 512,
                remain >= 1,
        ;
        if remain - c > 0 {
            assert(end_of_blocks(cur + c, remain - c) == end_of_blocks(cur, remain));
        }
        assert(after.subrange(cur, cur + remain) =~= buf.subrange(pos, pos + remain)) by {
            assert forall|i: int| 0 <= i < remain implies #[trigger] after.subrange(cur, cur + remain)[i]
                == buf.subrange(pos, pos + remain)[i] by {
                if i >= c {
                    assert(after.subrange(cur + c, cur + remain)[i - c] == buf.subrange(
                        pos + c,
                        pos + remain,
                    )[i - c]);
                }
            }
        }
    }
}

/// A whole write: overwriting, for every piece of `plan(offset, len)`, the
/// piece's block with the image that `block_image` makes of `buf`, over
/// device contents `dev` (whole blocks, reaching past the transfer),
/// leaves the device's length as it was, puts `buf` at bytes `offset` to
/// `offset + len`, and leaves every byte before the first touched block and
/// from the end of the last touched block on as it was.
pub proof fn lemma_write_transfer(dev: Seq<u8>, offset: u64, buf: Seq<u8>)
    requires
        buf.len() <= usize::MAX,
        offset + buf.len() <= u64::MAX,
        transfer_fits(offset as int, buf.len() as int),
        offset + buf.len() <= dev.len(),
        dev.len() % 512 == 0,
    ensures
        ({
            let after = apply_writes(dev, spec_plan(offset as int, 0, buf.len() as int), buf);
            &&& after.len() == dev.len()
            &&& after.subrange(offset as int, offset + buf.len()) == buf
            &&& forall|i: int| 0 <= i < (offset / 512) * 512 ==> after[i] == dev[i]
            &&& forall|i: int|
                end_of_blocks(offset as int, buf.len() as int) <= i < dev.len() ==> after[i] == dev[i]
        }),
{
    lemma_writes_from(dev, offset as int, 0, buf.len() as int, buf);
    assert(buf.subrange(0, buf.len() as int) =~= buf);
}

} // verus!
