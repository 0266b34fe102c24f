use ruxfuse::fusedev::FuseDev;
use ruxfuse::sda::SdaDev;
use ruxfuse::types::NodeType;
use ruxfuse::vda::{BlockSpan, VdaNode};

#[test]
fn memory_device_read_after_write() {
    let mut dev = FuseDev::new();
    let data: Vec<u8> = (0..50u8).collect();
    assert_eq!(dev.write_at(1052672 + 10, &data), 50);
    let mut buf = vec![0u8; 50];
    assert_eq!(dev.read_at(10, &mut buf), 50);
    assert_eq!(&buf[0..4], &[32, 0, 0, 0]);
    assert_eq!(&buf[4..8], &[26, 0, 0, 0]);
    assert_eq!(buf[8], 37);
    assert_eq!(buf[16], 2);
    assert_eq!(&buf[36..50], &data[36..50]);
    assert_eq!(dev.get_attr().ty, NodeType::CharDevice);
}

#[test]
fn sda_reports_whole_buffers() {
    let dev = SdaDev::new();
    let mut buf = vec![3u8; 7];
    assert_eq!(dev.read_at(0, &mut buf), 7);
    assert_eq!(buf, vec![3u8; 7]);
    assert_eq!(dev.write_at(5, &[1, 2]), 2);
    assert_eq!(dev.get_attr().perm, 0o666);
}

#[test]
fn vda_plans_aligned_and_small_transfers() {
    let spans = VdaNode::plan(512, 1000);
    assert_eq!(
        spans,
        vec![
            BlockSpan { block: 1, start: 0, len: 512, pos: 0 },
            BlockSpan { block: 2, start: 0, len: 488, pos: 512 },
        ]
    );
    let small = VdaNode::plan(10, 20);
    assert_eq!(small, vec![BlockSpan { block: 0, start: 10, len: 20, pos: 0 }]);
    assert!(VdaNode::plan(700, 0).is_empty());
}

#[test]
fn vda_moves_pieces_between_blocks_and_buffers() {
    let block: Vec<u8> = (0..=255u8).chain(0..=255u8).collect();
    let mut buf = vec![0u8; 6];
    VdaNode::copy_from_block(&mut buf, BlockSpan { block: 0, start: 10, len: 4, pos: 1 }, &block);
    assert_eq!(buf, vec![0, 10, 11, 12, 13, 0]);
    let image = VdaNode::block_image(b"abcdef", BlockSpan { block: 3, start: 500, len: 3, pos: 2 });
    assert_eq!(image.len(), 512);
    assert_eq!(&image[500..503], b"cde");
    assert!(image[..500].iter().all(|&b| b == 0));
    assert!(image[503..].iter().all(|&b| b == 0));
    let a = VdaNode::new().get_attr();
    assert_eq!((a.perm, a.ty, a.size, a.blocks), (0o777, NodeType::BlockDevice, 67108864, 131072));
}

#[test]
fn vda_whole_transfers_read_back_what_was_written() {
    let mut device: Vec<u8> = (0..4096u32).map(|i| (i % 251) as u8 + 1).collect();
    let data: Vec<u8> = (0..1100u32).map(|i| (i % 7) as u8 + 100).collect();
    for span in VdaNode::plan(1024, data.len()) {
        let image = VdaNode::block_image(&data, span);
        let at = span.block as usize * 512;
        device[at..at + 512].copy_from_slice(&image);
    }
    assert_eq!(&device[1024..2124], &data[..]);
    assert_eq!(device[1023], (1023 % 251) as u8 + 1);
    assert_eq!(device[2124], 0);
    assert_eq!(device[2560], (2560 % 251) as u8 + 1);
    let mut buf = vec![0u8; 1100];
    for span in VdaNode::plan(1024, buf.len()) {
        let at = span.block as usize * 512;
        VdaNode::copy_from_block(&mut buf, span, &device[at..at + 512]);
    }
    assert_eq!(buf, data);
    let mut small = vec![0u8; 10];
    for span in VdaNode::plan(1030, small.len()) {
        let at = span.block as usize * 512;
        VdaNode::copy_from_block(&mut small, span, &device[at..at + 512]);
    }
    assert_eq!(&small[..], &data[6..16]);
}
