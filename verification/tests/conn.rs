use ruxfuse::conn::{
    flush_bg_queue, fuse_aio_complete, fuse_ctl_init, fuse_dev_init, fuse_fs_init, fuse_len_args,
    fuse_open_holds_writes, fuse_send_open_flags, fuse_simple_request, fuse_sysfs_init, mark_reply_expected,
    AioCompletion, FuseConn, FuseIQueue, FuseIoPriv, FuseReq,
};
use ruxfuse::fuse_st::FuseOpenOut;

#[test]
fn taking_requests() {
    let mut c = FuseConn::new();
    assert!(c.block_alloc(false));
    c.initialized = true;
    assert!(!c.block_alloc(false));
    c.blocked = true;
    assert!(c.block_alloc(true));
    c.get_req_start();
    assert_eq!(c.num_waiting, 1);
    assert_eq!(c.get_req_finish(vec![8]).unwrap_err(), -107);
    c.connected = true;
    c.conn_error = true;
    assert_eq!(c.get_req_finish(vec![8]).unwrap_err(), -111);
    c.conn_error = false;
    let r = c.get_req_finish(vec![8]).unwrap();
    assert_eq!((r.flags, r.count, r.arg_sizes.clone()), (1, 1, vec![8]));
    assert!(!c.drop_waiting());
    assert_eq!(c.num_waiting, 0);
    c.connected = false;
    c.num_waiting = 1;
    assert!(c.drop_waiting());
}

#[test]
fn forced_and_reply_flags() {
    let mut c = FuseConn::new();
    let mut r = c.force_request(vec![]);
    assert_eq!(c.num_waiting, 1);
    assert_eq!(r.flags, 3);
    mark_reply_expected(&mut r, false);
    assert_eq!(r.flags, 7);
    let mut q = FuseReq::new(vec![]);
    mark_reply_expected(&mut q, true);
    assert_eq!(q.flags, 1);
}

#[test]
fn argument_lengths_and_ids() {
    assert_eq!(fuse_len_args(&[8, 16, 3]), 27);
    assert_eq!(fuse_len_args(&[]), 0);
    let mut q = FuseIQueue { reqctr: 4, connected: true, pending: Vec::new(), forget: None };
    assert_eq!(q.get_unique(), 4);
    assert_eq!(q.reqctr, 6);
    q.reqctr = u64::MAX;
    assert_eq!(q.get_unique(), u64::MAX);
    assert_eq!(q.reqctr, 1);
    q.queue_request(FuseReq::new(vec![8, 16]));
    assert_eq!(q.pending[0].len, 64);
    q.queue_forget(3, 1);
    assert_eq!(q.forget.unwrap().nodeid, 3);
    q.connected = false;
    q.queue_forget(9, 1);
    assert_eq!(q.forget.unwrap().nodeid, 3);
}

#[test]
fn background_queue_lets_through_up_to_the_maximum() {
    let mut c = FuseConn::new();
    c.max_background = 2;
    let mut q = FuseIQueue { reqctr: 10, connected: true, pending: Vec::new(), forget: None };
    let mut bg = vec![FuseReq::new(vec![1]), FuseReq::new(vec![2]), FuseReq::new(vec![3])];
    flush_bg_queue(&mut c, &mut q, &mut bg);
    assert_eq!(c.active_background, 2);
    assert_eq!(bg.len(), 1);
    assert_eq!(bg[0].arg_sizes, vec![3]);
    assert_eq!(q.pending.len(), 2);
    assert_eq!((q.pending[0].unique, q.pending[0].len), (10, 41));
    assert_eq!((q.pending[1].unique, q.pending[1].len), (12, 42));
    assert_eq!(q.reqctr, 14);
    flush_bg_queue(&mut c, &mut q, &mut bg);
    assert_eq!(bg.len(), 1);
}

#[test]
fn aio_completion() {
    let mut io = FuseIoPriv { err: 0, bytes: -1, reqs: 2, blocking: true };
    assert_eq!(fuse_aio_complete(&mut io, 0, 100), AioCompletion::Pending);
    assert_eq!(io.bytes, 100);
    assert_eq!(fuse_aio_complete(&mut io, 0, 50), AioCompletion::Pending);
    assert_eq!(io.bytes, 50);
    assert_eq!(fuse_aio_complete(&mut io, 0, 70), AioCompletion::Pending);
    assert_eq!(io.bytes, 50);
    assert_eq!(fuse_aio_complete(&mut io, -5, 0), AioCompletion::Pending);
    assert_eq!(fuse_aio_complete(&mut io, -7, 0), AioCompletion::Pending);
    assert_eq!(io.err, -5);
    io.reqs = 1;
    assert_eq!(fuse_aio_complete(&mut io, 0, 1), AioCompletion::Wake);
    io.blocking = false;
    assert_eq!(fuse_aio_complete(&mut io, 0, 1), AioCompletion::Finish);
}

#[test]
fn open_flags_and_opening() {
    assert_eq!(fuse_send_open_flags(0o1702, true), 0o1002);
    assert_eq!(fuse_send_open_flags(0o1702, false), 0o2);
    assert!(fuse_open_holds_writes(0o1000, true, true));
    assert!(!fuse_open_holds_writes(0o1000, true, false));
    let mut c = FuseConn::new();
    assert!(c.open_sends_request(true));
    let f = c.fuse_do_open(5, false, Some(Ok(FuseOpenOut::new(9, 3)))).unwrap();
    assert_eq!((f.fh, f.open_flags, f.nodeid), (9, 3, 5));
    let d = c.fuse_do_open(5, true, Some(Ok(FuseOpenOut::new(9, 3)))).unwrap();
    assert_eq!(d.open_flags, 2);
    assert_eq!(c.fuse_do_open(5, false, Some(Err(-13))).unwrap_err(), -13);
    let g = c.fuse_do_open(5, true, Some(Err(-38))).unwrap();
    assert_eq!((g.fh, g.open_flags), (0, 10));
    assert!(c.no_opendir);
    assert!(!c.open_sends_request(true));
    let h = c.fuse_do_open(6, true, None).unwrap();
    assert_eq!(h.open_flags, 10);
}

#[test]
fn init_steps() {
    assert_eq!((fuse_fs_init(), fuse_dev_init(), fuse_sysfs_init(), fuse_ctl_init()), (0, 1, 1, 0));
}

#[test]
fn simple_requests() {
    let mut c = FuseConn::new();
    let r = fuse_simple_request(&mut c, true, false, vec![4, 8]).unwrap();
    assert_eq!((r.flags, r.count, r.unique, r.arg_sizes.clone()), (7, 1, 0, vec![4, 8]));
    assert_eq!(c.num_waiting, 1);
    c.initialized = true;
    assert_eq!(fuse_simple_request(&mut c, false, false, vec![]).unwrap_err(), -107);
    assert_eq!(c.num_waiting, 2);
    c.connected = true;
    c.conn_error = true;
    assert_eq!(fuse_simple_request(&mut c, false, true, vec![]).unwrap_err(), -111);
    c.conn_error = false;
    assert_eq!(fuse_simple_request(&mut c, false, true, vec![]).unwrap().flags, 1);
    assert_eq!(fuse_simple_request(&mut c, false, false, vec![]).unwrap().flags, 5);
    assert_eq!(fuse_simple_request(&mut c, true, true, vec![]).unwrap().flags, 3);
    assert_eq!(c.num_waiting, 6);
}
