//! The hand-over of requests and replies between a file system node and the
//! daemon that reads and writes `/dev/fuse`.
//!
//! The channel is a flag and a byte buffer shared by both sides:
//! the node appends a request and sets the flag to the request's opcode;
//! the daemon, once the flag is positive, takes the request out of the
//! buffer; it writes its reply into the buffer and adds 100 to the flag;
//! on its next read the daemon negates a flag above 100, and a negative
//! flag tells the node that the reply is ready; the node takes the reply
//! and sets the flag back to zero. Waiting for the flag is left to the
//! caller; the functions here are the steps taken once the wait is over.

use vstd::prelude::*;
use crate::le::{splice, append_bytes};
use crate::types::{NodeAttr, NodeType};

verus! {

/// The state of the channel as a flag and the bytes in the buffer.
pub struct ChannelState {
    pub flag: i32,
    pub data: Seq<u8>,
}

/// The idle channel: no request, no reply.
pub open spec fn idle() -> ChannelState {
    ChannelState { flag: 0, data: Seq::empty() }
}

/// The node queues `request` and raises the flag to `opcode`.
pub open spec fn spec_send(st: ChannelState, request: Seq<u8>, opcode: i32) -> ChannelState {
    ChannelState { flag: opcode, data: st.data + request }
}

/// What the daemon does first on a read: a flag above 100 (a reply has
/// been written) is negated, which hands the reply to the node.
pub open spec fn spec_read_begin(st: ChannelState) -> ChannelState {
    if st.flag > 100 {
        ChannelState { flag: (-st.flag) as i32, data: st.data }
    } else {
        st
    }
}

/// The daemon takes everything in the buffer; the flag stays.
pub open spec fn spec_take_request(st: ChannelState) -> (Seq<u8>, ChannelState) {
    (st.data, ChannelState { flag: st.flag, data: Seq::empty() })
}

/// The daemon appends `reply` and adds 100 to the flag.
pub open spec fn spec_write_reply(st: ChannelState, reply: Seq<u8>) -> ChannelState {
    ChannelState { flag: (st.flag + 100) as i32, data: st.data + reply }
}

/// The node takes everything in the buffer and lowers the flag to zero.
pub open spec fn spec_take_reply(st: ChannelState) -> (Seq<u8>, ChannelState) {
    (st.data, idle())
}

/// The `/dev/fuse` channel: the flag and the shared buffer.
pub struct FuseDev {
    flag: i32,
    data: Vec<u8>,
}

impl View for FuseDev {
    type V = ChannelState;

    closed spec fn view(&self) -> ChannelState {
        ChannelState { flag: self.flag, data: self.data@ }
    }
}

impl FuseDev {
    /// An idle channel.
    pub fn new() -> (r: Self)
        ensures
            r@ == idle(),
    {
        FuseDev { flag: 0, data: Vec::new() }
    }

    /// The attributes of the device: a character device with the default
    /// file permission bits `0o666`, size and blocks zero.
    pub fn get_attr(&self) -> (r: NodeAttr)
        ensures
            r == (NodeAttr { perm: 0o666, ty: NodeType::CharDevice, size: 0, blocks: 0 }),
    {
        NodeAttr { perm: 0o666, ty: NodeType::CharDevice, size: 0, blocks: 0 }
    }

    /// Truncation changes nothing.
    pub fn truncate(&self, _size: u64) {
    }

    /// How many bytes wait in the buffer.
    pub fn pending_len(&self) -> (r: usize)
        ensures
            r == self@.data.len(),
    {
        self.data.len()
    }

    /// The current value of the flag.
    pub fn flag(&self) -> (r: i32)
        ensures
            r == self@.flag,
    {
        self.flag
    }

    /// The node side: queue `request` and raise the flag to `opcode`.
    pub fn send_request(&mut self, request: &[u8], opcode: i32)
        ensures
            final(self)@ == spec_send(old(self)@, request@, opcode),
    {
        append_bytes(&mut self.data, request);
        self.flag = opcode;
    }

    /// The node side: whether the daemon has handed back a reply.
    pub fn reply_ready(&self) -> (r: bool)
        ensures
            r == (self@.flag < 0),
    {
        self.flag < 0
    }

    /// The node side: take the reply out of the channel, leaving it idle.
    pub fn take_reply(&mut self) -> (r: Vec<u8>)
        ensures
            (r@, final(self)@) == spec_take_reply(old(self)@),
    {
        let mut out: Vec<u8> = Vec::new();
        core::mem::swap(&mut out, &mut self.data);
        self.flag = 0;
        out
    }

    /// The daemon side, first step of a read: hand a written reply over to
    /// the node by negating a flag above 100.
    pub fn read_begin(&mut self)
        ensures
            final(self)@ == spec_read_begin(old(self)@),
    {
        if self.flag > 100 {
            self.flag = -self.flag;
        }
    }

    /// The daemon side: whether a request is waiting (the flag is positive).
    pub fn request_ready(&self) -> (r: bool)
        ensures
            r == (self@.flag > 0),
    {
        self.flag > 0
    }

    /// The daemon side, once a request is waiting: copy the buffer into the
    /// start of `buf`, empty the buffer, and report the whole length of `buf`
    /// as read.
    pub fn read_at(&mut self, buf: &mut [u8]) -> (r: usize)
        requires
            old(self)@.data.len() <= old(buf)@.len(),
        ensures
            final(buf)@ == splice(old(buf)@, 0, spec_take_request(old(self)@).0),
            final(self)@ == spec_take_request(old(self)@).1,
            r == old(buf)@.len(),
    {
        crate::le::copy_into(buf, 0, self.data.as_slice());
        self.data.clear();
        buf.len()
    }

    /// The daemon side, once a request is waiting: append the reply in
    /// `buf` and add 100 to the flag; the whole of `buf` counts as written.
    pub fn write_at(&mut self, buf: &[u8]) -> (r: usize)
        requires
            old(self)@.flag + 100 <= i32::MAX,
        ensures
            final(self)@ == spec_write_reply(old(self)@, buf@),
            r == buf@.len(),
    {
        append_bytes(&mut self.data, buf);
        self.flag = self.flag + 100;
        buf.len()
    }
}

/// A request that the node sends on an idle channel reaches the daemon
/// unchanged, and the reply that the daemon writes back reaches the node
/// unchanged, after which the channel is idle again.
pub proof fn lemma_request_reply_roundtrip(request: Seq<u8>, reply: Seq<u8>, opcode: i32)
    requires
        0 < opcode <= 100,
    ensures
        ({
            let s1 = spec_send(idle(), request, opcode);
            let s2 = spec_read_begin(s1);
            let (got_request, s3) = spec_take_request(s2);
            let s4 = spec_write_reply(s3, reply);
            let s5 = spec_read_begin(s4);
            let (got_reply, s6) = spec_take_reply(s5);
            &&& s2.flag > 0
            &&& got_request == request
            &&& s4.flag > 100
            &&& s5.flag < 0
            &&& got_reply == reply
            &&& s6 == idle()
        }),
{
    let s1 = spec_send(idle(), request, opcode);
    assert(s1.data =~= request);
    let s3 = spec_take_request(spec_read_begin(s1)).1;
    let s4 = spec_write_reply(s3, reply);
    assert(s4.data =~= reply);
}

} // verus!
