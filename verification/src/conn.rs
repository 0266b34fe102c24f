//! The bookkeeping of a FUSE connection on the kernel side: who may take
//! a request, how requests are numbered and queued, how background
//! requests are let through, how asynchronous I/O completes and how a
//! file is opened. Waiting, waking and the transfer of the requests
//! themselves are left to the caller.

use vstd::prelude::*;
use crate::fuse_st::FuseOpenOut;

verus! {

/// The error number of an operation on an unconnected endpoint.
pub const ENOTCONN: i32 = 107;

/// The error number of a refused connection.
pub const ECONNREFUSED: i32 = 111;

/// The error number of an operation that is not implemented.
pub const ENOSYS: i32 = 38;

/// Open flag: create the file.
pub const O_CREAT: u32 = 0o100;

/// Open flag: fail if the file exists.
pub const O_EXCL: u32 = 0o200;

/// Open flag: do not make the file the controlling terminal.
pub const O_NOCTTY: u32 = 0o400;

/// Open flag: truncate the file.
pub const O_TRUNC: u32 = 0o1000;

/// Open reply flag: bypass the page cache.
pub const FOPEN_DIRECT_IO: u32 = 1;

/// Open reply flag: keep the page cache.
pub const FOPEN_KEEP_CACHE: u32 = 2;

/// Open reply flag: cache the directory.
pub const FOPEN_CACHE_DIR: u32 = 8;

/// The size of a request header in bytes.
pub const IN_HEADER_LEN: u64 = 40;

/// The state of a FUSE connection that its bookkeeping reads and changes.
#[derive(Debug, Clone, Copy, PartialEq, Eq, Structural)]
pub struct FuseConn {
    pub initialized: bool,
    pub blocked: bool,
    pub connected: bool,
    pub conn_error: bool,
    pub num_waiting: usize,
    pub atomic_o_trunc: bool,
    pub writeback_cache: bool,
    pub no_open: bool,
    pub no_opendir: bool,
    pub max_background: usize,
    pub active_background: usize,
}

/// A request as the connection sees it: its id, the length in its header,
/// the sizes of its input arguments, its flag bits and its reference count.
#[derive(Debug, Clone)]
pub struct FuseReq {
    pub unique: u64,
    pub len: u64,
    pub arg_sizes: Vec<u32>,
    pub flags: u32,
    pub count: usize,
}

/// A request as plain values.
pub struct FuseReqView {
    pub unique: u64,
    pub len: u64,
    pub arg_sizes: Seq<u32>,
    pub flags: u32,
    pub count: usize,
}

impl View for FuseReq {
    type V = FuseReqView;

    open spec fn view(&self) -> FuseReqView {
        FuseReqView {
            unique: self.unique,
            len: self.len,
            arg_sizes: self.arg_sizes@,
            flags: self.flags,
            count: self.count,
        }
    }
}

impl FuseReq {
    /// A fresh request: no id, no length, the given argument sizes, flag
    /// bit 0 set and one reference.
    pub fn new(arg_sizes: Vec<u32>) -> (r: Self)
        ensures
            r@ == (FuseReqView { unique: 0, len: 0, arg_sizes: arg_sizes@, flags: 1, count: 1 }),
    {
        FuseReq { unique: 0, len: 0, arg_sizes, flags: 1, count: 1 }
    }
}

impl FuseConn {
    /// A connection that is neither initialized, blocked, connected nor in
    /// error, with nobody waiting and no background requests.
    pub fn new() -> (r: Self)
        ensures
            r == (FuseConn {
                initialized: false,
                blocked: false,
                connected: false,
                conn_error: false,
                num_waiting: 0,
                atomic_o_trunc: false,
                writeback_cache: false,
                no_open: false,
                no_opendir: false,
                max_background: 0,
                active_background: 0,
            }),
    {
        FuseConn {
            initialized: false,
            blocked: false,
            connected: false,
            conn_error: false,
            num_waiting: 0,
            atomic_o_trunc: false,
            writeback_cache: false,
            no_open: false,
            no_opendir: false,
            max_background: 0,
            active_background: 0,
        }
    }

    /// Whether taking a request has to wait: the connection is not
    /// initialized yet, or the request is a background one and background
    /// requests are blocked.
    pub fn block_alloc(&self, for_background: bool) -> (r: bool)
        ensures
            r == (!self.initialized || (for_background && self.blocked)),
    {
        !self.initialized || (for_background && self.blocked)
    }

    /// One waiter fewer; the result tells whether those blocked must be
    /// woken: nobody waits any more and the connection is down.
    pub fn drop_waiting(&mut self) -> (wake: bool)
        requires
            old(self).num_waiting > 0,
        ensures
            *final(self) == (FuseConn { num_waiting: (old(self).num_waiting - 1) as usize, ..*old(self) }),
            wake == (final(self).num_waiting == 0 && !old(self).connected),
    {
        self.num_waiting = self.num_waiting - 1;
        self.num_waiting == 0 && !self.connected
    }

    /// The first step of taking a request: one waiter more. The caller then
    /// waits while `block_alloc` holds, and finishes with `get_req_finish`.
    pub fn get_req_start(&mut self)
        requires
            old(self).num_waiting < usize::MAX,
        ensures
            *final(self) == (FuseConn { num_waiting: (old(self).num_waiting + 1) as usize, ..*old(self) }),
    {
        self.num_waiting = self.num_waiting + 1;
    }

    /// The last step of taking a request: `-ENOTCONN` when the connection is
    /// down, `-ECONNREFUSED` when it is in error, else a fresh request.
    pub fn get_req_finish(&self, arg_sizes: Vec<u32>) -> (r: Result<FuseReq, i32>)
        ensures
            !self.connected ==> r == Err::<FuseReq, i32>((-ENOTCONN) as i32),
            self.connected && self.conn_error ==> r == Err::<FuseReq, i32>((-ECONNREFUSED) as i32),
            self.connected && !self.conn_error ==> (r matches Ok(req) && req@ == (FuseReqView {
                unique: 0,
                len: 0,
                arg_sizes: arg_sizes@,
                flags: 1,
                count: 1,
            })),
    {
        if !self.connected {
            return Err(-ENOTCONN);
        }
        if self.conn_error {
            return Err(-ECONNREFUSED);
        }
        Ok(FuseReq::new(arg_sizes))
    }

    /// The request of a forced simple request: one waiter more and a
    /// request with flag bits 0 and 1 set, taken without waiting.
    pub fn force_request(&mut self, arg_sizes: Vec<u32>) -> (r: FuseReq)
        requires
            old(self).num_waiting < usize::MAX,
        ensures
            *final(self) == (FuseConn { num_waiting: (old(self).num_waiting + 1) as usize, ..*old(self) }),
            r@ == (FuseReqView { unique: 0, len: 0, arg_sizes: arg_sizes@, flags: 3, count: 1 }),
    {
        self.num_waiting = self.num_waiting + 1;
        FuseReq { unique: 0, len: 0, arg_sizes, flags: 3, count: 1 }
    }
}

/// A simple request that expects a reply gets flag bit 2 as well.
pub fn mark_reply_expected(req: &mut FuseReq, noreply: bool)
    ensures
        final(req)@ == (FuseReqView {
            flags: if noreply {
                old(req)@.flags
            } else {
                old(req)@.flags | 4
            },
            ..old(req)@
        }),
{
    if !noreply {
        req.flags = req.flags | 4;
    }
}

/// The flag bits of a simple request: bit 0, bit 1 when forced, bit 2 when
/// a reply is expected.
pub open spec fn simple_request_flags(force: bool, noreply: bool) -> u32 {
    (if force {
        3u32
    } else {
        1u32
    }) | (if noreply {
        0u32
    } else {
        4u32
    })
}

/// Takes the request that a simple request sends: a forced one at once,
/// else once the connection is initialized (until then the caller waits,
/// as `block_alloc(false)` says; only another task can end that wait). Either way
/// one waiter more; `-ENOTCONN` or `-ECONNREFUSED` as `get_req_finish`
/// gives them; the request expects a reply unless `noreply`. Sending it
/// and reading the daemon's error code are left to the caller.
pub fn fuse_simple_request(fc: &mut FuseConn, force: bool, noreply: bool, arg_sizes: Vec<u32>) -> (r:
    Result<FuseReq, i32>)
    requires
        old(fc).num_waiting < usize::MAX,
        force || old(fc).initialized,
    ensures
        *final(fc) == (FuseConn { num_waiting: (old(fc).num_waiting + 1) as usize, ..*old(fc) }),
        !force && !old(fc).connected ==> r == Err::<FuseReq, i32>((-ENOTCONN) as i32),
        !force && old(fc).connected && old(fc).conn_error ==> r == Err::<FuseReq, i32>(
            (-ECONNREFUSED) as i32,
        ),
        force || (old(fc).connected && !old(fc).conn_error) ==> (r matches Ok(req) && req@ == (
        FuseReqView {
            unique: 0,
            len: 0,
            arg_sizes: arg_sizes@,
            flags: simple_request_flags(force, noreply),
            count: 1,
        })),
{
    let mut req = if force {
        fc.force_request(arg_sizes)
    } else {
        fc.get_req_start();
        match fc.get_req_finish(arg_sizes) {
            Ok(req) => req,
            Err(e) => {
                return Err(e);
            },
        }
    };
    mark_reply_expected(&mut req, noreply);
    assert(3u32 | 0u32 == 3u32 && 1u32 | 0u32 == 1u32 && 3u32 | 4u32 == 7u32 && 1u32 | 4u32 == 5u32)
        by (bit_vector);
    Ok(req)
}

/// The sum of argument sizes.
pub open spec fn sum_sizes(s: Seq<u32>) -> int
    decreases s.len(),
{
    if s.len() == 0 {
        0
    } else {
        sum_sizes(s.drop_last()) + s.last()
    }
}

/// The total size of the arguments.
pub fn fuse_len_args(args: &[u32]) -> (r: u64)
    requires
        sum_sizes(args@) <= u64::MAX,
    ensures
        r == sum_sizes(args@),
{
    let n = args.len();
    let mut total: u64 = 0;
    let mut i: usize = 0;
    while i < n
        invariant
            n == args@.len(),
            0 <= i <= n,
            total == sum_sizes(args@.take(i as int)),
            sum_sizes(args@) <= u64::MAX,
        decreases n - i,
    {
        proof {
            assert(args@.take(i + 1).drop_last() =~= args@.take(i as int));
            lemma_sum_sizes_prefix(args@, i + 1);
        }
        total = total + args[i] as u64;
        i = i + 1;
    }
    assert(args@.take(n as int) =~= args@);
    total
}

/// The sum over a prefix is at most the whole sum.
pub proof fn lemma_sum_sizes_prefix(s: Seq<u32>, k: int)
    requires
        0 <= k <= s.len(),
    ensures
        sum_sizes(s.take(k)) <= sum_sizes(s),
    decreases s.len() - k,
{
    if k < s.len() {
        lemma_sum_sizes_prefix(s, k + 1);
        assert(s.take(k + 1).drop_last() =~= s.take(k));
    } else {
        assert(s.take(k) =~= s);
    }
}

/// The id after `x`: two more, wrapping around at 2^64.
pub open spec fn next_unique(x: u64) -> u64 {
    ((x + 2) % 0x1_0000_0000_0000_0000) as u64
}

/// One forgotten node: its id and how many lookups it drops.
#[derive(Debug, Clone, Copy, PartialEq, Eq, Structural)]
pub struct ForgetOne {
    pub nodeid: u64,
    pub nlookup: u64,
}

/// The input queue of a connection: the id counter, whether it is
/// connected, the pending requests and the last forget.
#[derive(Debug)]
pub struct FuseIQueue {
    pub reqctr: u64,
    pub connected: bool,
    pub pending: Vec<FuseReq>,
    pub forget: Option<ForgetOne>,
}

impl FuseIQueue {
    /// The id for a request: the counter as it was; the counter moves on by
    /// two.
    pub fn get_unique(&mut self) -> (r: u64)
        ensures
            r == old(self).reqctr,
            final(self).reqctr == next_unique(old(self).reqctr),
            final(self).connected == old(self).connected,
            final(self).pending@ == old(self).pending@,
            final(self).forget == old(self).forget,
    {
        let r = self.reqctr;
        if self.reqctr <= u64::MAX - 2 {
            self.reqctr = self.reqctr + 2;
        } else {
            self.reqctr = self.reqctr - (u64::MAX - 1);
        }
        r
    }

    /// Queues a request: its header length becomes that of the header plus
    /// its arguments.
    pub fn queue_request(&mut self, req: FuseReq)
        requires
            IN_HEADER_LEN + sum_sizes(req.arg_sizes@) <= u64::MAX,
        ensures
            final(self).pending@.len() == old(self).pending@.len() + 1,
            forall|j: int|
                0 <= j < old(self).pending@.len() ==> final(self).pending@[j] == old(
                    self,
                ).pending@[j],
            final(self).pending@.last()@ == (FuseReqView {
                len: (IN_HEADER_LEN + sum_sizes(req.arg_sizes@)) as u64,
                ..req@
            }),
            final(self).reqctr == old(self).reqctr,
            final(self).connected == old(self).connected,
            final(self).forget == old(self).forget,
    {
        let mut req = req;
        let args_len = fuse_len_args(req.arg_sizes.as_slice());
        req.len = IN_HEADER_LEN + args_len;
        self.pending.push(req);
    }

    /// Records a forget for `nodeid` when the queue is connected.
    pub fn queue_forget(&mut self, nodeid: u64, nlookup: u64)
        ensures
            final(self).forget == if old(self).connected {
                Some(ForgetOne { nodeid: nodeid, nlookup: nlookup })
            } else {
                old(self).forget
            },
            final(self).reqctr == old(self).reqctr,
            final(self).connected == old(self).connected,
            final(self).pending@ == old(self).pending@,
    {
        if self.connected {
            self.forget = Some(ForgetOne { nodeid, nlookup });
        }
    }
}

/// What completing one piece of asynchronous I/O asks for.
#[derive(Debug, Clone, Copy, PartialEq, Eq, Structural)]
pub enum AioCompletion {
    /// More pieces are outstanding.
    Pending,
    /// The last piece of a blocking I/O: wake the waiter.
    Wake,
    /// The last piece of a non-blocking I/O: report the result.
    Finish,
}

/// The state of an asynchronous I/O: the first error, the number of bytes
/// done (negative while unknown), the outstanding pieces and whether a
/// caller blocks on it.
#[derive(Debug, Clone, Copy, PartialEq, Eq, Structural)]
pub struct FuseIoPriv {
    pub err: i32,
    pub bytes: i64,
    pub reqs: u64,
    pub blocking: bool,
}

/// Completes one piece of asynchronous I/O with error `err` and end
/// position `pos`: the first error is kept; without an error a known
/// position below the bytes done so far (or any, while none are known)
/// becomes the bytes done; the last piece wakes a blocked caller or
/// finishes a non-blocking I/O.
pub fn fuse_aio_complete(io: &mut FuseIoPriv, err: i32, pos: i64) -> (r: AioCompletion)
    ensures
        final(io).reqs == old(io).reqs,
        final(io).blocking == old(io).blocking,
        final(io).err == if err != 0 && old(io).err == 0 {
            err
        } else {
            old(io).err
        },
        final(io).bytes == if err == 0 && pos >= 0 && (old(io).bytes < 0 || pos < old(io).bytes) {
            pos
        } else {
            old(io).bytes
        },
        r == if old(io).reqs != 1 {
            AioCompletion::Pending
        } else if old(io).blocking {
            AioCompletion::Wake
        } else {
            AioCompletion::Finish
        },
{
    if err != 0 {
        io.err = if io.err != 0 {
            io.err
        } else {
            err
        };
    } else if pos >= 0 && (io.bytes < 0 || pos < io.bytes) {
        io.bytes = pos;
    }
    if io.reqs != 1 {
        AioCompletion::Pending
    } else if io.blocking {
        AioCompletion::Wake
    } else {
        AioCompletion::Finish
    }
}

/// The flags that an open request carries: those of the file without
/// `O_CREAT`, `O_EXCL` and `O_NOCTTY`, and without `O_TRUNC` unless the
/// connection truncates atomically.
pub fn fuse_send_open_flags(f_flags: u32, atomic_o_trunc: bool) -> (r: u32)
    ensures
        r == if atomic_o_trunc {
            f_flags & !(O_CREAT | O_EXCL | O_NOCTTY)
        } else {
            f_flags & !(O_CREAT | O_EXCL | O_NOCTTY) & !O_TRUNC
        },
{
    let mut flags = f_flags & !(O_CREAT | O_EXCL | O_NOCTTY);
    if !atomic_o_trunc {
        flags = flags & !O_TRUNC;
    }
    flags
}

/// Whether an open has to hold off writes while it runs: it truncates, and
/// the connection truncates atomically and caches writes.
pub fn fuse_open_holds_writes(f_flags: u32, atomic_o_trunc: bool, writeback_cache: bool) -> (r:
    bool)
    ensures
        r == ((f_flags & O_TRUNC) != 0 && atomic_o_trunc && writeback_cache),
{
    (f_flags & O_TRUNC) != 0 && atomic_o_trunc && writeback_cache
}

/// An open file: its handle, its open flags and its node id.
#[derive(Debug, Clone, Copy, PartialEq, Eq, Structural)]
pub struct FuseFile {
    pub fh: u64,
    pub open_flags: u32,
    pub nodeid: u64,
}

impl FuseConn {
    /// Whether opening sends a request: the daemon has not said that it
    /// does not implement opening (directories or files).
    pub open spec fn spec_open_sends_request(&self, isdir: bool) -> bool {
        (isdir && !self.no_opendir) || (!isdir && !self.no_open)
    }

    /// Whether opening sends a request.
    pub fn open_sends_request(&self, isdir: bool) -> (r: bool)
        ensures
            r == self.spec_open_sends_request(isdir),
    {
        (isdir && !self.no_opendir) || (!isdir && !self.no_open)
    }

    /// Opens node `nodeid` once the daemon has answered, where a request was
    /// sent: the file starts with handle 0 and flags `FOPEN_KEEP_CACHE`
    /// (and `FOPEN_CACHE_DIR` for a directory); a successful reply gives its
    /// handle and flags; an error other than `-ENOSYS` fails the open;
    /// `-ENOSYS` marks opening as not implemented and the open goes on. A
    /// directory never keeps `FOPEN_DIRECT_IO`.
    pub fn fuse_do_open(&mut self, nodeid: u64, isdir: bool, reply: Option<Result<FuseOpenOut, i32>>) -> (r:
        Result<FuseFile, i32>)
        requires
            reply is Some <==> old(self).spec_open_sends_request(isdir),
        ensures
            ({
                let initial = if isdir {
                    FOPEN_KEEP_CACHE | FOPEN_CACHE_DIR
                } else {
                    FOPEN_KEEP_CACHE
                };
                let adjust = |f: u32|
                    if isdir {
                        f & !FOPEN_DIRECT_IO
                    } else {
                        f
                    };
                match reply {
                    None => r == Ok::<FuseFile, i32>(
                        FuseFile { fh: 0, open_flags: adjust(initial), nodeid: nodeid },
                    ) && *final(self) == *old(self),
                    Some(Ok(out)) => r == Ok::<FuseFile, i32>(
                        FuseFile { fh: out.fh, open_flags: adjust(out.open_flags), nodeid: nodeid },
                    ) && *final(self) == *old(self),
                    Some(Err(e)) => if e != -ENOSYS {
                        r == Err::<FuseFile, i32>(e) && *final(self) == *old(self)
                    } else {
                        r == Ok::<FuseFile, i32>(
                            FuseFile { fh: 0, open_flags: adjust(initial), nodeid: nodeid },
                        ) && *final(self) == (if isdir {
                            FuseConn { no_opendir: true, ..*old(self) }
                        } else {
                            FuseConn { no_open: true, ..*old(self) }
                        })
                    },
                }
            }),
    {
        let mut fh: u64 = 0;
        let mut open_flags: u32 = if isdir {
            FOPEN_KEEP_CACHE | FOPEN_CACHE_DIR
        } else {
            FOPEN_KEEP_CACHE
        };
        match reply {
            None => {},
            Some(Ok(out)) => {
                fh = out.fh;
                open_flags = out.open_flags;
            },
            Some(Err(e)) => {
                if e != -ENOSYS {
                    return Err(e);
                } else if isdir {
                    self.no_opendir = true;
                } else {
                    self.no_open = true;
                }
            },
        }
        if isdir {
            open_flags = open_flags & !FOPEN_DIRECT_IO;
        }
        Ok(FuseFile { fh, open_flags, nodeid })
    }
}

/// Lets background requests through while fewer than the maximum are
/// active: each one leaves the front of `bg_queue`, counts as active, takes
/// the next id and is queued.
pub fn flush_bg_queue(fc: &mut FuseConn, fiq: &mut FuseIQueue, bg_queue: &mut Vec<FuseReq>)
    requires
        forall|j: int|
            0 <= j < old(bg_queue)@.len() ==> IN_HEADER_LEN + sum_sizes(
                #[trigger] old(bg_queue)@[j].arg_sizes@,
            ) <= u64::MAX,
    ensures
        ({
            let k: int = if old(fc).active_background >= old(fc).max_background {
                0
            } else if old(fc).max_background - old(fc).active_background < old(bg_queue)@.len() {
                old(fc).max_background - old(fc).active_background
            } else {
                old(bg_queue)@.len() as int
            };
            &&& *final(fc) == (FuseConn {
                active_background: (old(fc).active_background + k) as usize,
                ..*old(fc)
            })
            &&& final(bg_queue)@ == old(bg_queue)@.skip(k)
            &&& old(fc).active_background <= old(fc).max_background
                ==> final(fc).active_background <= final(fc).max_background
            &&& final(fiq).pending@.len() == old(fiq).pending@.len() + k
            &&& forall|j: int|
                0 <= j < old(fiq).pending@.len() ==> final(fiq).pending@[j] == old(
                    fiq,
                ).pending@[j]
            &&& forall|j: int|
                0 <= j < k ==> #[trigger] final(fiq).pending@[old(fiq).pending@.len() + j]@
                    == (FuseReqView {
                    unique: unique_after(old(fiq).reqctr, j),
                    len: (IN_HEADER_LEN + sum_sizes(old(bg_queue)@[j].arg_sizes@)) as u64,
                    ..old(bg_queue)@[j]@
                })
            &&& final(fiq).reqctr == unique_after(old(fiq).reqctr, k)
            &&& final(fiq).connected == old(fiq).connected
            &&& final(fiq).forget == old(fiq).forget
        }),
{
    let ghost old_bg = bg_queue@;
    let ghost old_pending = fiq.pending@;
    let ghost old_active = fc.active_background;
    let ghost start_ctr = fiq.reqctr;
    let ghost old_fc = *fc;
    let mut taken: usize = 0;
    while fc.active_background < fc.max_background && bg_queue.len() > 0
        invariant
            taken <= old_bg.len(),
            bg_queue@ == old_bg.skip(taken as int),
            fc.active_background == old_active + taken,
            *fc == (FuseConn { active_background: fc.active_background, ..old_fc }),
            old_active < old_fc.max_background || taken == 0,
            old_active + taken <= old_fc.max_background || taken == 0,
            fiq.pending@.len() == old_pending.len() + taken,
            forall|j: int| 0 <= j < old_pending.len() ==> fiq.pending@[j] == old_pending[j],
            forall|j: int|
                0 <= j < taken ==> #[trigger] fiq.pending@[old_pending.len() + j]@ == (
                FuseReqView {
                    unique: unique_after(start_ctr, j),
                    len: (IN_HEADER_LEN + sum_sizes(old_bg[j].arg_sizes@)) as u64,
                    ..old_bg[j]@
                }),
            fiq.reqctr == unique_after(start_ctr, taken as int),
            fiq.connected == old(fiq).connected,
            fiq.forget == old(fiq).forget,
            forall|j: int|
                0 <= j < old_bg.len() ==> IN_HEADER_LEN + sum_sizes(#[trigger] old_bg[j].arg_sizes@)
                    <= u64::MAX,
        decreases bg_queue@.len(),
    {
        let mut req = bg_queue.remove(0);
        assert(req@ == old_bg[taken as int]@);
        fc.active_background = fc.active_background + 1;
        let ghost ctr = fiq.reqctr;
        req.unique = fiq.get_unique();
        proof {
            lemma_unique_after_step(start_ctr, taken as int);
        }
        fiq.queue_request(req);
        taken = taken + 1;
        assert(bg_queue@ =~= old_bg.skip(taken as int));
    }
}

/// The id counter after `n` ids were taken from `start`.
pub open spec fn unique_after(start: u64, n: int) -> u64
    decreases n,
{
    if n <= 0 {
        start
    } else {
        next_unique(unique_after(start, n - 1))
    }
}

proof fn lemma_unique_after_step(start: u64, n: int)
    requires
        n >= 0,
    ensures
        unique_after(start, n + 1) == next_unique(unique_after(start, n)),
{
}

/// The result of the file system's own initialisation step: 0.
pub fn fuse_fs_init() -> (r: u32)
    ensures
        r == 0,
{
    0
}

/// The result of the device's initialisation step: 1.
pub fn fuse_dev_init() -> (r: u32)
    ensures
        r == 1,
{
    1
}

/// The result of the sysfs initialisation step: 1.
pub fn fuse_sysfs_init() -> (r: u32)
    ensures
        r == 1,
{
    1
}

/// The result of the control file system's initialisation step: 0.
pub fn fuse_ctl_init() -> (r: u32)
    ensures
        r == 0,
{
    0
}

} // verus!
