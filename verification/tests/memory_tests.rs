use livesplit_auto_splitting::memory::{
    pointer_from_bytes, step_address, Bitness, MemoryImage,
};

#[test]
fn image_reads_inside_one_region() {
    let mut img = MemoryImage::new();
    img.add_region(0x1000, vec![1, 2, 3, 4, 5]);
    assert_eq!(img.read_bytes(0x1000, 2), Some(vec![1, 2]));
    assert_eq!(img.read_bytes(0x1003, 2), Some(vec![4, 5]));
    assert_eq!(img.read_bytes(0x1004, 2), None);
    assert_eq!(img.read_bytes(0x0FFF, 1), None);
}

#[test]
fn image_first_region_wins_on_overlap() {
    let mut img = MemoryImage::new();
    img.add_region(0x1000, vec![7, 7]);
    img.add_region(0x1000, vec![9, 9]);
    assert_eq!(img.read_bytes(0x1000, 2), Some(vec![7, 7]));
}

#[test]
fn step_address_wraps_at_64_bits() {
    assert_eq!(step_address(10, 5, Bitness::Bits64), 15);
    assert_eq!(step_address(10, -4, Bitness::Bits64), 6);
    assert_eq!(step_address(u64::MAX, 1, Bitness::Bits64), 0);
    assert_eq!(step_address(0, -1, Bitness::Bits64), u64::MAX);
}

#[test]
fn step_address_wraps_at_32_bits() {
    assert_eq!(step_address(0xFFFF_FFFF, 1, Bitness::Bits32), 0);
    assert_eq!(step_address(0, -1, Bitness::Bits32), 0xFFFF_FFFF);
    assert_eq!(step_address(0x10, 0x20, Bitness::Bits32), 0x30);
}

#[test]
fn pointers_decode_little_endian() {
    assert_eq!(
        pointer_from_bytes(&[0x78, 0x56, 0x34, 0x12], Bitness::Bits32),
        0x1234_5678
    );
    assert_eq!(
        pointer_from_bytes(
            &[0x00, 0x00, 0x50, 0x00, 0x00, 0x00, 0x00, 0x00],
            Bitness::Bits64
        ),
        0x50_0000
    );
}
