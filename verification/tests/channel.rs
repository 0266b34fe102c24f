use ruxfuse::devfuse::FuseDev;
use ruxfuse::types::NodeType;

#[test]
fn request_reaches_daemon_and_reply_reaches_node() {
    let mut ch = FuseDev::new();
    assert_eq!(ch.flag(), 0);
    assert!(!ch.request_ready());
    ch.send_request(&[1, 2, 3], 14);
    ch.read_begin();
    assert!(ch.request_ready());
    assert!(!ch.reply_ready());
    let mut buf = vec![9u8; 5];
    assert_eq!(ch.read_at(&mut buf), 5);
    assert_eq!(buf, vec![1, 2, 3, 9, 9]);
    assert_eq!(ch.write_at(&[7, 8]), 2);
    assert_eq!(ch.flag(), 114);
    assert!(!ch.reply_ready());
    ch.read_begin();
    assert_eq!(ch.flag(), -114);
    assert!(ch.reply_ready());
    assert!(!ch.request_ready());
    assert_eq!(ch.take_reply(), vec![7, 8]);
    assert_eq!(ch.flag(), 0);
}

#[test]
fn read_begin_leaves_pending_request_alone() {
    let mut ch = FuseDev::new();
    ch.send_request(&[5], 26);
    ch.read_begin();
    assert_eq!(ch.flag(), 26);
}

#[test]
fn channel_device_attributes() {
    let ch = FuseDev::new();
    let a = ch.get_attr();
    assert_eq!(a.ty, NodeType::CharDevice);
    assert_eq!(a.perm, 0o666);
    assert_eq!((a.size, a.blocks), (0, 0));
}
