use clipboard_image::le::{push_le_u16, push_le_u32, read_le_u16, read_le_u32};

#[test]
fn sixteen_bits_go_low_byte_first() {
    let mut out = vec![9u8];
    push_le_u16(&mut out, 0x4d42);
    assert_eq!(out, vec![9, 0x42, 0x4d]);
    push_le_u16(&mut out, 0);
    push_le_u16(&mut out, 0xffff);
    assert_eq!(out, vec![9, 0x42, 0x4d, 0, 0, 0xff, 0xff]);
}

#[test]
fn thirty_two_bits_go_low_byte_first() {
    let mut out = Vec::new();
    push_le_u32(&mut out, 0x1234_5678);
    assert_eq!(out, vec![0x78, 0x56, 0x34, 0x12]);
    push_le_u32(&mut out, 138);
    assert_eq!(out, vec![0x78, 0x56, 0x34, 0x12, 138, 0, 0, 0]);
}

#[test]
fn layout_agrees_with_the_standard_library() {
    for value in [0u32, 1, 255, 256, 65_535, 65_536, 16_777_215, 16_777_216, u32::MAX] {
        let mut out = Vec::new();
        push_le_u32(&mut out, value);
        assert_eq!(out, value.to_le_bytes().to_vec());
        assert_eq!(read_le_u32(&out, 0), value);
    }
}

#[test]
fn reading_starts_at_the_place_given() {
    let bytes = [0xaa, 0x01, 0x02, 0x03, 0x04, 0xbb];
    assert_eq!(read_le_u32(&bytes, 1), 0x0403_0201);
    assert_eq!(read_le_u32(&bytes, 2), 0xbb04_0302);
}

#[test]
fn sixteen_bits_are_read_low_byte_first() {
    let bytes = [0xaa, 0x34, 0x12, 0xff, 0xff];
    assert_eq!(read_le_u16(&bytes, 1), 0x1234);
    assert_eq!(read_le_u16(&bytes, 3), 0xffff);
    assert_eq!(read_le_u16(&bytes, 0), 0x34aa);
}
