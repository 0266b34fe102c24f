use ruxfuse::fuse_dev::{
    fuse_in_header, fuse_open_in, fuse_open_out, fuse_opcode, fuse_out_header, fuse_read_in,
    fuse_write_in, fuse_write_out,
};
use ruxfuse::fuse_st::{
    FuseAttrOut, FuseDirent, FuseEntryOut, FuseGetattrIn, FuseInHeader, FuseInitIn, FuseInitOut,
    FuseOpcode, FuseOpenIn, FuseOpenOut, FuseOutHeader, FuseReadIn, FuseWriteIn, FuseWriteOut,
};
use ruxfuse::types::NodeType;

#[test]
fn in_header_write_to_leaves_padding_and_tail() {
    let h = FuseInHeader::new(104, 26, 2, 1, 1000, 1000, 42, 7);
    let mut buf = vec![0xAAu8; 44];
    h.write_to(&mut buf);
    let mut expected = vec![
        104, 0, 0, 0, 26, 0, 0, 0, 2, 0, 0, 0, 0, 0, 0, 0, 1, 0, 0, 0, 0, 0, 0, 0, 0xe8, 3, 0, 0,
        0xe8, 3, 0, 0, 42, 0, 0, 0,
    ];
    expected.extend_from_slice(&[0xAA; 8]);
    assert_eq!(buf, expected);
    assert_eq!(h.padding, 7);
}

#[test]
fn out_header_roundtrip() {
    let h = FuseOutHeader::new(16, -2, 0x0102030405060708);
    let mut buf = vec![0u8; 16];
    h.write_to(&mut buf);
    assert_eq!(buf, vec![16, 0, 0, 0, 0xfe, 0xff, 0xff, 0xff, 8, 7, 6, 5, 4, 3, 2, 1]);
    let back = FuseOutHeader::read_from(&buf);
    assert_eq!(back.len, 16);
    assert_eq!(back.error, -2);
    assert_eq!(back.unique, 0x0102030405060708);
    assert!(!back.is_ok());
    assert_eq!(back.error(), -2);
}

#[test]
fn out_header_is_ok_only_for_zero() {
    assert!(FuseOutHeader::new(16, 0, 1).is_ok());
    assert!(!FuseOutHeader::new(16, 5, 1).is_ok());
}

#[test]
fn write_out_roundtrip_of_size() {
    let w = FuseWriteOut::new(0xdeadbeef);
    let mut buf = vec![9u8; 8];
    w.write_to(&mut buf);
    assert_eq!(buf, vec![0xef, 0xbe, 0xad, 0xde, 9, 9, 9, 9]);
    let back = FuseWriteOut::read_from(&buf);
    assert_eq!(back.size, 0xdeadbeef);
    assert_eq!(back.padding, 0x09090909);
}

#[test]
fn init_in_write_to_encodes_all_words() {
    let mut unused = [0u32; 11];
    unused[10] = 0x11223344;
    let i = FuseInitIn::new(7, 38, 0x00020000, 0x33fffffb, 5, unused);
    let mut buf = vec![0u8; 64];
    i.write_to(&mut buf);
    assert_eq!(&buf[0..20], &[7, 0, 0, 0, 38, 0, 0, 0, 0, 0, 2, 0, 0xfb, 0xff, 0xff, 0x33, 5, 0, 0, 0]);
    assert_eq!(&buf[60..64], &[0x44, 0x33, 0x22, 0x11]);
    assert!(buf[20..60].iter().all(|&b| b == 0));
}

#[test]
fn init_out_read_from_decodes_fields() {
    let mut buf = vec![0u8; 64];
    buf[0] = 7;
    buf[4] = 38;
    buf[16] = 0x10;
    buf[17] = 0x01;
    buf[28] = 32;
    buf[32] = 0x39;
    buf[33] = 0xf0;
    buf[34] = 0x40;
    buf[60] = 9;
    let o = FuseInitOut::read_from(&buf);
    assert_eq!(o.major, 7);
    assert_eq!(o.minor, 38);
    assert_eq!(o.max_background, 0x0110);
    assert_eq!(o.max_pages, 32);
    assert_eq!(o.flags2, 0x40f039);
    assert_eq!(o.unused[6], 9);
    assert_eq!(o.unused[0], 0);
}

#[test]
fn open_out_read_from_and_default() {
    let mut buf = vec![0u8; 16];
    buf[0] = 0x34;
    buf[1] = 0x12;
    buf[8] = 1;
    buf[12] = 2;
    let o = FuseOpenOut::read_from(&buf);
    assert_eq!(o.get_fh(), 0x1234);
    assert_eq!(o.open_flags, 1);
    assert_eq!(o.padding, 2);
    let d = FuseOpenOut::default();
    assert_eq!(d.get_fh(), 0);
    let n = FuseOpenOut::new(5, 6);
    assert_eq!((n.fh, n.open_flags, n.padding), (5, 6, 0));
}

#[test]
fn attr_out_and_entry_out_read_linux_layout() {
    let mut buf = vec![0u8; 128];
    // attr_out: attr starts at 16; size at 16 + 8, mode at 16 + 60
    buf[24] = 100;
    buf[76] = 0xed;
    buf[77] = 0x41;
    let a = FuseAttrOut::read_from(&buf);
    assert_eq!(a.get_size(), 100);
    assert_eq!(a.get_attr().get_mode(), 0x41ed);
    assert_eq!(a.attr.crtime, 0);
    // entry_out: nodeid at 0, attr starts at 40
    let mut e = vec![0u8; 128];
    e[0] = 5;
    e[48] = 7;
    e[100] = 0xa4;
    e[101] = 0x81;
    let eo = FuseEntryOut::read_from(&e);
    assert_eq!(eo.get_nodeid(), 5);
    assert_eq!(eo.get_size(), 7);
    assert_eq!(eo.get_attr().mode, 0x81a4);
    let d = FuseEntryOut::default();
    assert_eq!(d.get_nodeid(), 0);
}

#[test]
fn dirent_read_from_and_record_length() {
    let mut buf = vec![0u8; 40];
    buf[0] = 3; // ino
    buf[16] = 3; // namelen
    buf[20] = 4; // DT_DIR
    buf[24..27].copy_from_slice(b"abc");
    let d = FuseDirent::read_from(&buf);
    assert_eq!(d.ino, 3);
    assert_eq!(d.namelen, 3);
    assert_eq!(d.get_name(), b"abc".to_vec());
    assert_eq!(d.get_len(), 32);
    assert_eq!(d.get_type_as_vfsnodetype(), NodeType::Dir);
    let mut buf2 = vec![0u8; 40];
    buf2[16] = 9;
    buf2[20] = 8;
    let d2 = FuseDirent::read_from(&buf2);
    assert_eq!(d2.get_len(), 40);
    assert_eq!(d2.get_type_as_vfsnodetype(), NodeType::File);
}

#[test]
fn request_arguments_write_to() {
    let mut buf = vec![0u8; 36];
    FuseReadIn::new(1, 2, 3, 4, 5, 6).write_to(&mut buf);
    assert_eq!(buf[0], 1);
    assert_eq!(buf[8], 2);
    assert_eq!(buf[16], 3);
    assert_eq!(buf[20], 4);
    assert_eq!(buf[24], 5);
    assert_eq!(buf[32], 6);
    let mut buf = vec![0u8; 36];
    FuseWriteIn::new(9, 8, 7, 6, 5, 4).write_to(&mut buf);
    assert_eq!((buf[0], buf[8], buf[16], buf[20], buf[24], buf[32]), (9, 8, 7, 6, 5, 4));
    let mut buf = vec![0u8; 8];
    FuseOpenIn::new(0x8000, 1).write_to(&mut buf);
    assert_eq!(buf, vec![0, 0x80, 0, 0, 1, 0, 0, 0]);
    let mut buf = vec![0u8; 16];
    FuseGetattrIn::new(1, 2, 0x0a0b).write_to(&mut buf);
    assert_eq!(buf, vec![1, 0, 0, 0, 2, 0, 0, 0, 0x0b, 0x0a, 0, 0, 0, 0, 0, 0]);
}

#[test]
fn opcodes_have_protocol_numbers() {
    assert_eq!(FuseOpcode::FUSE_LOOKUP.code(), 1);
    assert_eq!(FuseOpcode::FUSE_MKNOD.code(), 8);
    assert_eq!(FuseOpcode::FUSE_FSYNC.code(), 20);
    assert_eq!(FuseOpcode::FUSE_INIT.code(), 26);
    assert_eq!(FuseOpcode::FUSE_RENAME2.code(), 45);
    assert_eq!(FuseOpcode::FUSE_TMPFILE.code(), 51);
    assert_eq!(fuse_opcode::FUSE_READDIR.code(), 28);
}

#[test]
fn device_side_structures_write_to() {
    let mut buf = vec![0xffu8; 40];
    fuse_in_header::new(32, 26, 37, 2, 0, 0, 0, 0).write_to(&mut buf);
    assert_eq!(&buf[0..8], &[32, 0, 0, 0, 26, 0, 0, 0]);
    assert_eq!(buf[8], 37);
    assert_eq!(buf[16], 2);
    assert_eq!(&buf[36..40], &[0xff; 4]);
    let mut buf = vec![0u8; 16];
    fuse_out_header::new(16, -1, 3).write_to(&mut buf);
    assert_eq!(&buf[4..8], &[0xff; 4]);
    let mut buf = vec![0u8; 12];
    fuse_open_out::new(0x0102, 4).write_to(&mut buf);
    assert_eq!(buf, vec![2, 1, 0, 0, 0, 0, 0, 0, 4, 0, 0, 0]);
    let mut buf = vec![0u8; 8];
    fuse_open_in::new(1, 2).write_to(&mut buf);
    assert_eq!(buf, vec![1, 0, 0, 0, 2, 0, 0, 0]);
    let mut buf = vec![0u8; 36];
    fuse_read_in::new(1, 2, 3, 4, 5, 6).write_to(&mut buf);
    assert_eq!(buf[32], 6);
    let mut buf = vec![0u8; 36];
    fuse_write_in::new(1, 2, 3, 4, 5, 6).write_to(&mut buf);
    assert_eq!(buf[20], 4);
    let mut buf = vec![7u8; 8];
    fuse_write_out::new(3).write_to(&mut buf);
    assert_eq!(buf, vec![3, 0, 0, 0, 7, 7, 7, 7]);
}
