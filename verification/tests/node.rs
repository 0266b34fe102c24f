use ruxfuse::fuse_st::FuseAttr;
use ruxfuse::node::{
    create_plan, dirents_within, reply_error, split_path, CreatePlan, FuseNode, LookupStep, UniqueIds,
};
use ruxfuse::types::{FsError, NodeType};

fn node_with_mode(mode: u32) -> FuseNode {
    FuseNode::new(5, FuseAttr { mode, ..FuseAttr::default() }, 0, 0x77)
}

fn reply_header(len: u32, error: i32, unique: u64) -> Vec<u8> {
    let mut v = Vec::new();
    v.extend_from_slice(&len.to_le_bytes());
    v.extend_from_slice(&error.to_le_bytes());
    v.extend_from_slice(&unique.to_le_bytes());
    v
}

fn header_fields(req: &[u8]) -> (u32, u32, u64, u64, u32, u32, u32) {
    (
        u32::from_le_bytes(req[0..4].try_into().unwrap()),
        u32::from_le_bytes(req[4..8].try_into().unwrap()),
        u64::from_le_bytes(req[8..16].try_into().unwrap()),
        u64::from_le_bytes(req[16..24].try_into().unwrap()),
        u32::from_le_bytes(req[24..28].try_into().unwrap()),
        u32::from_le_bytes(req[28..32].try_into().unwrap()),
        u32::from_le_bytes(req[32..36].try_into().unwrap()),
    )
}

#[test]
fn mode_bits_decide_kind_and_flags() {
    let dir = node_with_mode(0x41ed);
    assert!(dir.is_dir());
    assert_eq!(dir.dir_flags(), 0x18800);
    let rw = node_with_mode(0x81a4);
    assert!(!rw.is_dir());
    assert_eq!(rw.file_flags(), 0x8001);
    assert_eq!(node_with_mode(0x8124).file_flags(), 0x8000);
    assert_eq!(node_with_mode(0x81ed).file_flags(), 0x8002);
    assert_eq!(node_with_mode(0x8000).file_flags(), 0x8000);
    assert_eq!(node_with_mode(0x8080).dir_flags(), 0x18802);
    assert_eq!(node_with_mode(0x8040).dir_flags(), 0x18800);
    assert_eq!(rw.flags, 0x8000);
}

#[test]
fn split_path_cases() {
    let (a, rest) = split_path(b"/a/b/c");
    assert_eq!(a, b"a".to_vec());
    assert_eq!(rest, Some(b"b/c".to_vec()));
    let (x, rest) = split_path(b"//x");
    assert_eq!(x, b"x".to_vec());
    assert_eq!(rest, None);
    let (e, rest) = split_path(b"");
    assert!(e.is_empty());
    assert_eq!(rest, None);
    let (d, rest) = split_path(b"a/");
    assert_eq!(d, b"a".to_vec());
    assert_eq!(rest, Some(Vec::new()));
}

#[test]
fn unique_ids_step_by_two() {
    let mut ids = UniqueIds::new();
    assert_eq!(ids.next(), 2);
    assert_eq!(ids.next(), 4);
    assert_eq!(ids.last, 4);
}

#[test]
fn init_request_and_reply() {
    let req = FuseNode::init_request(2, 9);
    assert_eq!(req.len(), 104);
    assert_eq!(header_fields(&req), (104, 26, 2, 1, 1000, 1000, 9));
    assert_eq!(&req[40..48], &[7, 0, 0, 0, 38, 0, 0, 0]);
    assert_eq!(&req[48..56], &[0, 0, 2, 0, 0xfb, 0xff, 0xff, 0x33]);
    let mut reply = reply_header(80, 0, 2);
    let mut body = vec![0u8; 64];
    body[0] = 7;
    body[4] = 38;
    reply.extend_from_slice(&body);
    let (h, out) = FuseNode::init(&reply);
    assert_eq!(h.len, 80);
    assert_eq!(out.major, 7);
    assert_eq!(out.minor, 38);
}

#[test]
fn open_file_request_and_reply() {
    let mut n = node_with_mode(0x81a4);
    let req = n.open_request(4, 3);
    assert_eq!(req.len(), 48);
    assert_eq!(header_fields(&req), (48, 14, 4, 5, 1000, 1000, 3));
    assert_eq!(&req[40..48], &[0, 0x80, 0, 0, 0, 0, 0, 0]);
    let mut reply = reply_header(32, 0, 4);
    reply.extend_from_slice(&0x1234u64.to_le_bytes());
    reply.extend_from_slice(&[0u8; 8]);
    assert_eq!(n.open(&reply), Ok(()));
    assert_eq!(n.fh, 0x1234);
    assert_eq!(n.open(&reply_header(16, -21, 4)), Err(FsError::IsADirectory));
    assert_eq!(n.open(&reply_header(16, -38, 4)), Err(FsError::FunctionNotImplemented));
    assert_eq!(n.open(&reply_header(16, -5, 4)), Err(FsError::PermissionDenied));
    assert_eq!(n.fh, 0x1234);
    // a positive code counts as success without a handle
    assert_eq!(n.open(&reply_header(16, 3, 4)), Ok(()));
    assert_eq!(n.fh, 0);
}

#[test]
fn open_dir_request_and_reply() {
    let mut d = node_with_mode(0x41ed);
    let req = d.open_request(6, 1);
    assert_eq!(header_fields(&req).1, 27);
    assert_eq!(&req[40..44], &[0x00, 0x88, 0x01, 0x00]);
    assert_eq!(d.open(&reply_header(16, -20, 6)), Err(FsError::NotADirectory));
    assert_eq!(d.open(&reply_header(16, -21, 6)), Err(FsError::PermissionDenied));
    let mut reply = reply_header(32, 0, 6);
    reply.extend_from_slice(&9u64.to_le_bytes());
    reply.extend_from_slice(&[0u8; 8]);
    assert_eq!(d.open_dir(&reply), Ok(()));
    assert_eq!(d.fh, 9);
}

#[test]
fn release_flush_fsync_access_requests() {
    let n = node_with_mode(0x81a4);
    let req = n.release_request(8, 2);
    assert_eq!(req.len(), 64);
    assert_eq!(header_fields(&req).1, 18);
    assert_eq!(&req[40..48], &0x77u64.to_le_bytes());
    assert_eq!(&req[48..52], &0x8000u32.to_le_bytes());
    assert_eq!(n.release(&reply_header(16, -21, 8)), Err(FsError::IsADirectory));
    let d = node_with_mode(0x41ed);
    let req = d.release_request(8, 2);
    assert_eq!(header_fields(&req).1, 29);
    assert_eq!(&req[48..52], &0x18800u32.to_le_bytes());
    assert_eq!(d.release(&reply_header(16, -20, 8)), Err(FsError::NotADirectory));
    let f = n.flush_request(10, 2);
    assert_eq!((f.len(), header_fields(&f).1), (64, 25));
    assert_eq!(n.flush(&reply_header(16, 0, 10)), Ok(()));
    let s = n.fsync_request(12, 2);
    assert_eq!((s.len(), header_fields(&s).0, header_fields(&s).1), (40, 40, 20));
    assert_eq!(n.fsync(&reply_header(16, -13, 12)), Err(FsError::PermissionDenied));
    let a = n.access_request(14, 2);
    assert_eq!((a.len(), header_fields(&a).1), (48, 34));
    assert_eq!(&a[40..44], &[1, 0, 0, 0]);
    assert_eq!(n.access(&reply_header(16, -38, 14)), Err(FsError::FunctionNotImplemented));
}

#[test]
fn name_requests_place_names() {
    let n = node_with_mode(0x41ed);
    let m = n.mknod_request(2, 1, b"f");
    assert_eq!(m.len(), 180);
    assert_eq!(header_fields(&m).0, 58);
    assert_eq!(header_fields(&m).1, 8);
    assert_eq!(&m[40..44], &0x81a4u32.to_le_bytes());
    assert_eq!(m[56], b'f');
    assert_eq!(m[57], 0);
    assert_eq!(n.mknod(&reply_header(16, -17, 2)), Err(FsError::AlreadyExists));
    let k = n.mkdir_request(2, 1, b"dir");
    assert_eq!(header_fields(&k).0, 52);
    assert_eq!(&k[40..48], &[0xf3, 2, 0, 0, 22, 0, 0, 0]);
    assert_eq!(&k[48..51], b"dir");
    assert_eq!(n.mkdir(&reply_header(16, 0, 2)), Ok(()));
    let r = n.rmdir_request(2, 1, b"dir");
    assert_eq!((header_fields(&r).0, header_fields(&r).1), (44, 11));
    assert_eq!(&r[40..43], b"dir");
    assert_eq!(n.rmdir(&reply_header(16, -2, 2)), Err(FsError::NotFound));
    let r2 = n.rename2_request(2, 1, b"ab", b"cd");
    assert_eq!(r2.len(), 280);
    assert_eq!((header_fields(&r2).0, header_fields(&r2).1), (62, 45));
    assert_eq!(&r2[56..58], b"ab");
    assert_eq!(r2[58], 0);
    assert_eq!(&r2[59..61], b"cd");
    assert_eq!(n.rename2(&reply_header(16, -2, 2)), Err(FsError::NotFound));
    let rn = n.rename_request(2, 1, b"ab", b"cd");
    assert_eq!((header_fields(&rn).0, header_fields(&rn).1), (54, 12));
    assert_eq!(&rn[48..50], b"ab");
    assert_eq!(&rn[51..53], b"cd");
    assert_eq!(n.rename(&reply_header(16, -13, 2)), Err(FsError::PermissionDenied));
    let c = n.create_request(2, 1, b"new");
    assert_eq!((header_fields(&c).0, header_fields(&c).1), (60, 35));
    assert_eq!(&c[40..44], &0x8241u32.to_le_bytes());
    assert_eq!(&c[56..59], b"new");
    assert_eq!(n.create(&reply_header(16, -17, 2)), Err(FsError::AlreadyExists));
}

#[test]
fn remove_goes_by_kind() {
    let d = node_with_mode(0x41ed);
    let r = d.remove_request(2, 1, b"x");
    assert_eq!(header_fields(&r).1, 11);
    assert_eq!(d.remove(&reply_header(16, -20, 2)), Err(FsError::NotADirectory));
    let f = node_with_mode(0x81a4);
    let r = f.remove_request(2, 1, b"x");
    assert_eq!(header_fields(&r).1, 2);
    assert_eq!(r[40], b'x');
    assert_eq!(f.remove(&reply_header(16, -21, 2)), Err(FsError::IsADirectory));
    assert_eq!(f.remove(&reply_header(16, -20, 2)), Err(FsError::PermissionDenied));
}

#[test]
fn get_attr_takes_reply_attributes() {
    let mut n = node_with_mode(0x81a4);
    let req = n.get_attr_request(2, 1);
    assert_eq!((req.len(), header_fields(&req).1), (56, 3));
    assert_eq!(&req[48..56], &0x77u64.to_le_bytes());
    let mut reply = reply_header(120, 0, 2);
    let mut body = vec![0u8; 104];
    body[24..32].copy_from_slice(&4096u64.to_le_bytes());
    body[76..80].copy_from_slice(&0x41edu32.to_le_bytes());
    reply.extend_from_slice(&body);
    let a = n.get_attr(&reply).unwrap();
    assert_eq!(a.ty, NodeType::Dir);
    assert_eq!(a.perm, 0o755);
    assert_eq!(a.size, 4096);
    assert_eq!(n.size, 4096);
    assert!(n.is_dir());
}

#[test]
fn read_request_and_reply() {
    let mut n = node_with_mode(0x81a4);
    n.flags = 0;
    let req = n.read_at_request(2, 1, 100);
    assert_eq!(n.flags, 0x8000);
    assert_eq!((req.len(), header_fields(&req).1), (80, 15));
    assert_eq!(&req[48..56], &100u64.to_le_bytes());
    assert_eq!(&req[56..60], &4096u32.to_le_bytes());
    let mut reply = reply_header(21, 0, 2);
    reply.extend_from_slice(b"hello");
    let mut buf = vec![0u8; 8];
    assert_eq!(n.read_at(&reply, &mut buf), Ok(5));
    assert_eq!(&buf, b"hello\0\0\0");
    let mut buf2 = vec![1u8; 2];
    assert_eq!(n.read_at(&reply_header(16, -21, 2), &mut buf2), Err(FsError::IsADirectory));
    assert_eq!(buf2, vec![1, 1]);
}

#[test]
fn write_request_and_reply() {
    let mut n = node_with_mode(0x81a4);
    let req = n.write_at_request(2, 1, 7, b"hi");
    assert_eq!(n.flags, 0x8001);
    assert_eq!(req.len(), 12000);
    assert_eq!((header_fields(&req).0, header_fields(&req).1), (83, 16));
    assert_eq!(&req[56..60], &3u32.to_le_bytes());
    assert_eq!(&req[72..76], &0x8001u32.to_le_bytes());
    assert_eq!(&req[80..83], b"hi\0");
    assert_eq!(n.write_at(&reply_header(24, 0, 2), b"hi"), Ok(2));
    assert_eq!(n.write_at(&reply_header(16, -2, 2), b"hi"), Err(FsError::NotFound));
}

#[test]
fn lookup_steps() {
    let mut n = node_with_mode(0x41ed);
    let req = n.lookup_request(2, 1, b"//a/b");
    assert_eq!((header_fields(&req).0, header_fields(&req).1, header_fields(&req).3), (44, 1, 1));
    assert_eq!(&req[40..43], b"a/b");
    let mut reply = reply_header(144, 0, 2);
    let mut entry = vec![0u8; 128];
    entry[0] = 42;
    entry[48] = 10;
    entry[100..104].copy_from_slice(&0x81a4u32.to_le_bytes());
    reply.extend_from_slice(&entry);
    match n.lookup(b"/a/b", &reply) {
        Ok(LookupStep::Continue(rest)) => assert_eq!(rest, b"b".to_vec()),
        other => panic!("unexpected {:?}", other),
    }
    match n.lookup(b"x", &reply) {
        Ok(LookupStep::Child(c)) => {
            assert_eq!(c.inode, 42);
            assert_eq!(c.size, 10);
            assert_eq!(c.fh, 0);
            assert!(!c.is_dir());
        },
        other => panic!("unexpected {:?}", other),
    }
    assert!(matches!(n.lookup(b"..", &reply), Ok(LookupStep::Parent)));
    assert_eq!(n.inode, 5);
    assert!(matches!(n.lookup(b".", &reply), Ok(LookupStep::Current)));
    assert_eq!(n.inode, 42);
    assert_eq!(n.size, 10);
    assert!(matches!(n.lookup(b"x", &reply_header(16, -2, 2)), Err(FsError::NotFound)));
    assert!(matches!(n.lookup(b"x", &reply_header(16, -13, 2)), Err(FsError::PermissionDenied)));
}

fn dirent(ino: u64, typ: u32, name: &[u8]) -> Vec<u8> {
    let mut v = Vec::new();
    v.extend_from_slice(&ino.to_le_bytes());
    v.extend_from_slice(&0u64.to_le_bytes());
    v.extend_from_slice(&(name.len() as u32).to_le_bytes());
    v.extend_from_slice(&typ.to_le_bytes());
    v.extend_from_slice(name);
    while v.len() % 8 != 0 {
        v.push(0);
    }
    v
}

#[test]
fn read_dir_lists_dot_entries_then_daemon_entries() {
    let n = node_with_mode(0x41ed);
    let req = n.read_dir_request(2, 1);
    assert_eq!((req.len(), header_fields(&req).1), (80, 28));
    assert_eq!(&req[72..76], &0x18800u32.to_le_bytes());
    let mut reply = reply_header(0, 0, 2);
    reply.extend_from_slice(&dirent(1, 4, b"."));
    reply.extend_from_slice(&dirent(1, 4, b".."));
    reply.extend_from_slice(&dirent(7, 8, b"file.txt"));
    reply.extend_from_slice(&dirent(8, 4, b"sub"));
    let all = n.read_dir(&reply, 0, 10).unwrap();
    assert_eq!(all.len(), 4);
    assert_eq!(all[0].name, b".".to_vec());
    assert_eq!(all[0].ty, NodeType::Dir);
    assert_eq!(all[1].name, b"..".to_vec());
    assert_eq!(all[2].name, b"file.txt".to_vec());
    assert_eq!(all[2].ty, NodeType::File);
    assert_eq!(all[3].name, b"sub".to_vec());
    assert_eq!(all[3].ty, NodeType::Dir);
    let two = n.read_dir(&reply, 3, 1).unwrap();
    assert_eq!(two.len(), 1);
    assert_eq!(two[0].name, b"sub".to_vec());
    assert_eq!(n.read_dir(&reply, 4, 3).unwrap().len(), 0);
    assert!(matches!(n.read_dir(&reply_header(16, -22, 2), 0, 4), Err(FsError::InvalidInput)));
}

#[test]
fn create_plans() {
    assert!(matches!(create_plan(b"d", NodeType::Dir), CreatePlan::Mkdir));
    match create_plan(b"./x", NodeType::File) {
        CreatePlan::Here(r) => assert_eq!(r, b"x".to_vec()),
        other => panic!("unexpected {:?}", other),
    }
    match create_plan(b"../y/z", NodeType::File) {
        CreatePlan::InParent(r) => assert_eq!(r, b"y/z".to_vec()),
        other => panic!("unexpected {:?}", other),
    }
    assert!(matches!(create_plan(b"a/b", NodeType::File), CreatePlan::Create));
    assert!(matches!(create_plan(b"a", NodeType::Fifo), CreatePlan::Create));
}

#[test]
fn reply_error_reads_the_header_code() {
    assert_eq!(reply_error(&reply_header(16, -2, 9), 4112), -2);
    assert_eq!(reply_error(&reply_header(16, 0, 9), 4112), 0);
    assert_eq!(reply_error(&[], 16), 0);
}

#[test]
fn dirents_within_checks_every_record() {
    let mut reply = reply_header(0, 0, 2);
    reply.extend_from_slice(&dirent(7, 8, b"file.txt"));
    assert!(dirents_within(&reply));
    assert!(dirents_within(&reply_header(16, 0, 2)));
    let mut long = reply.clone();
    let mut bad = dirent(9, 8, b"x");
    bad[16..20].copy_from_slice(&20000u32.to_le_bytes());
    long.extend_from_slice(&bad);
    assert!(!dirents_within(&long));
    reply.truncate(20);
    assert!(dirents_within(&reply));
}
