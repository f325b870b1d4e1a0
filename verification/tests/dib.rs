use clipboard_image::dib::{
    container_from_dib, screen_bitmap, size_image, wrap_dib, BITMAP_MAGIC, FILE_HEADER_LEN,
    INFO_HEADER_LEN, MAX_DECODED_PIXELS, SHORTEST_BITMAP_LEN, SIZE_IMAGE_AT,
};

/// A blob with an info header of the full length, `extra` bytes behind it,
/// and `declared` in the field for the length of the pixel data.
fn blob(extra: usize, declared: u32) -> Vec<u8> {
    let mut raw: Vec<u8> = (0..INFO_HEADER_LEN + extra).map(|i| (i % 251) as u8).collect();
    raw[0..4].copy_from_slice(&(INFO_HEADER_LEN as u32).to_le_bytes());
    raw[SIZE_IMAGE_AT..SIZE_IMAGE_AT + 4].copy_from_slice(&declared.to_le_bytes());
    raw
}

#[test]
fn the_header_has_its_documented_size_and_magic() {
    assert_eq!(FILE_HEADER_LEN, 14);
    assert_eq!(INFO_HEADER_LEN, 124);
    assert_eq!(SIZE_IMAGE_AT, 20);
    assert_eq!(BITMAP_MAGIC.to_le_bytes(), *b"BM");
}

#[test]
fn zero_size_image_puts_the_pixels_behind_the_info_header() {
    let raw = blob(64, 0);
    let file = wrap_dib(&raw, 0);
    assert_eq!(file.len(), 14 + raw.len());
    assert_eq!(&file[0..2], b"BM");
    assert_eq!(file[2..6], ((14 + raw.len()) as u32).to_le_bytes());
    assert_eq!(file[6..10], [0, 0, 0, 0]);
    assert_eq!(file[10..14], (14u32 + 124).to_le_bytes());
    assert_eq!(file[10..14], [138, 0, 0, 0]);
    assert_eq!(&file[14..], &raw[..]);
}

#[test]
fn zero_size_image_ignores_the_length_of_the_blob() {
    let short = wrap_dib(&[1, 2, 3], 0);
    assert_eq!(short, vec![0x42, 0x4d, 17, 0, 0, 0, 0, 0, 0, 0, 138, 0, 0, 0, 1, 2, 3]);
    let empty = wrap_dib(&[], 0);
    assert_eq!(empty, vec![0x42, 0x4d, 14, 0, 0, 0, 0, 0, 0, 0, 138, 0, 0, 0]);
}

#[test]
fn nonzero_size_image_skips_all_that_stands_before_the_pixels() {
    let raw = blob(1024 + 48, 48);
    let file = wrap_dib(&raw, 48);
    let expected = 14 + (raw.len() as u32 - 48);
    assert_eq!(expected, 14 + 124 + 1024);
    assert_eq!(file.len(), 14 + raw.len());
    assert_eq!(file[2..6], (14 + raw.len() as u32).to_le_bytes());
    assert_eq!(file[6..10], [0, 0, 0, 0]);
    assert_eq!(file[10..14], expected.to_le_bytes());
    assert_eq!(&file[14..], &raw[..]);
}

#[test]
fn a_blob_that_is_all_pixels_has_them_right_behind_the_header() {
    let raw = vec![7u8; 200];
    let file = wrap_dib(&raw, 200);
    assert_eq!(file[10..14], 14u32.to_le_bytes());
    let one = wrap_dib(&raw, 1);
    assert_eq!(one[10..14], (14u32 + 199).to_le_bytes());
}

#[test]
fn size_image_is_read_from_the_info_header() {
    assert_eq!(size_image(&blob(0, 0)), 0);
    assert_eq!(size_image(&blob(16, 16)), 16);
    assert_eq!(size_image(&blob(0, 0xdead_beef)), 0xdead_beef);
}

#[test]
fn the_checked_form_reads_the_declared_size_itself() {
    let raw = blob(300, 300);
    assert_eq!(container_from_dib(&raw), Some(wrap_dib(&raw, 300)));
    let file = container_from_dib(&raw).unwrap();
    assert_eq!(file[10..14], (14u32 + 124).to_le_bytes());

    let with_table = blob(1024 + 300, 300);
    let file = container_from_dib(&with_table).unwrap();
    assert_eq!(file[10..14], (14u32 + 124 + 1024).to_le_bytes());

    let undeclared = blob(300, 0);
    assert_eq!(container_from_dib(&undeclared), Some(wrap_dib(&undeclared, 0)));
}

#[test]
fn the_checked_form_refuses_what_cannot_be_a_bitmap() {
    assert_eq!(container_from_dib(&[]), None);
    assert_eq!(container_from_dib(&vec![0u8; INFO_HEADER_LEN - 1]), None);
    assert!(container_from_dib(&vec![0u8; INFO_HEADER_LEN]).is_some());
    let overdeclared = blob(10, INFO_HEADER_LEN as u32 + 11);
    assert_eq!(container_from_dib(&overdeclared), None);
    let all_pixels = blob(10, INFO_HEADER_LEN as u32 + 10);
    assert!(container_from_dib(&all_pixels).is_some());
}

#[test]
fn stripping_and_wrapping_again_changes_nothing() {
    for raw in [blob(0, 0), blob(77, 0), blob(77, 77), blob(1024 + 64, 64)] {
        let file = container_from_dib(&raw).unwrap();
        let stripped = &file[FILE_HEADER_LEN..];
        assert_eq!(stripped, &raw[..]);
        assert_eq!(container_from_dib(stripped), Some(file));
    }
}

#[test]
fn an_encoded_bitmap_is_rebuilt_from_its_dib() {
    let picture = image::DynamicImage::ImageRgb8(image::RgbImage::from_fn(9, 7, |x, y| {
        image::Rgb([x as u8 * 20, y as u8 * 30, 99])
    }));
    let mut file = Vec::new();
    picture.write_to(&mut file, image::ImageFormat::Bmp).unwrap();
    assert!(file.len() >= FILE_HEADER_LEN + INFO_HEADER_LEN);
    assert_eq!(container_from_dib(&file[FILE_HEADER_LEN..]), Some(file));
}

/// The first bytes of a bitmap file whose info header, of the length given,
/// declares `width` and `height`.
fn head(header_len: u32, width: u32, height: u32) -> Vec<u8> {
    let mut file = b"BM".to_vec();
    file.extend_from_slice(&[0; 12]);
    file.extend_from_slice(&header_len.to_le_bytes());
    file.extend_from_slice(&width.to_le_bytes());
    file.extend_from_slice(&height.to_le_bytes());
    file
}

#[test]
fn a_bitmap_is_screened_by_the_pixels_it_declares() {
    assert_eq!(MAX_DECODED_PIXELS, 8192 * 4096);
    assert_eq!(SHORTEST_BITMAP_LEN, 26);
    assert!(screen_bitmap(&head(40, 8192, 4096)));
    assert!(!screen_bitmap(&head(40, 8193, 4096)));
    assert!(!screen_bitmap(&head(40, 8192, 4097)));
    assert!(screen_bitmap(&head(124, 1, 33_554_432)));
    assert!(!screen_bitmap(&head(124, 1, 33_554_433)));
    assert!(screen_bitmap(&head(40, 0, 0xffff_ffff)));
    assert!(screen_bitmap(&head(40, 0xffff_ffff, 0)));
    assert!(!screen_bitmap(&head(40, 0xffff_ffff, 1)));
}

#[test]
fn rows_stored_from_the_top_down_count_like_any_others() {
    let top_down = |rows: i32| head(40, 8192, rows as u32);
    assert!(screen_bitmap(&top_down(-4096)));
    assert!(!screen_bitmap(&top_down(-4097)));
    assert!(!screen_bitmap(&top_down(i32::MIN)));
    assert!(screen_bitmap(&head(40, 0, i32::MIN as u32)));
}

#[test]
fn the_oldest_header_holds_sixteen_bit_sizes() {
    let core = |width: u16, height: u16| {
        let mut file = b"BM".to_vec();
        file.extend_from_slice(&[0; 12]);
        file.extend_from_slice(&12u32.to_le_bytes());
        file.extend_from_slice(&width.to_le_bytes());
        file.extend_from_slice(&height.to_le_bytes());
        file.extend_from_slice(&[0xff; 4]);
        file
    };
    assert!(screen_bitmap(&core(8192, 4096)));
    assert!(!screen_bitmap(&core(8193, 4096)));
    assert!(screen_bitmap(&core(512, 65_535)));
    assert!(!screen_bitmap(&core(513, 65_535)));
}

#[test]
fn a_file_too_short_for_its_sizes_is_not_screened() {
    assert!(!screen_bitmap(&[]));
    assert!(!screen_bitmap(&head(40, 1, 1)[..25]));
    assert!(screen_bitmap(&head(40, 1, 1)[..26]));
}
