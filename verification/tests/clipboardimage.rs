use clipboard_image::catalog::CodecTag;
use clipboard_image::clipboardimage::append_encoded;
use clipboard_image::codec::{fits_encoder, PixelKind};
use clipboard_image::{ClipboardError, ClipboardImage};
use image::{DynamicImage, GenericImageView, ImageFormat, Rgb, RgbImage};

fn picture(width: u32, height: u32) -> DynamicImage {
    DynamicImage::ImageRgb8(RgbImage::from_fn(width, height, |x, y| {
        Rgb([(x * 40 % 256) as u8, (y * 50 % 256) as u8, 7])
    }))
}

fn encoded(picture: &DynamicImage, format: ImageFormat) -> Vec<u8> {
    let mut bytes = Vec::new();
    picture.write_to(&mut bytes, format).unwrap();
    bytes
}

#[test]
fn text_is_appended_and_the_new_length_reported() {
    let image = ClipboardImage::ImageString(49_500, "image/svg+xml".to_string(), b"<svg/>".to_vec());
    let mut out = b"seen before: ".to_vec();
    assert_eq!(image.write_to_buffer(&mut out).unwrap(), 19);
    assert_eq!(out, b"seen before: <svg/>".to_vec());
}

#[test]
fn text_into_an_empty_buffer() {
    let image = ClipboardImage::ImageString(1, "image/svg+xml".to_string(), vec![1, 2, 3]);
    let mut out = Vec::new();
    assert_eq!(image.write_to_buffer(&mut out).unwrap(), 3);
    assert_eq!(out, vec![1, 2, 3]);
}

#[test]
fn empty_text_still_reports_the_length_of_the_buffer() {
    let image = ClipboardImage::ImageString(1, String::new(), Vec::new());
    let mut out = vec![9, 9];
    assert_eq!(image.write_to_buffer(&mut out).unwrap(), 2);
    assert_eq!(out, vec![9, 9]);
}

#[test]
fn not_found_writes_nothing_and_reports_zero() {
    let mut out = vec![4, 5, 6];
    assert_eq!(ClipboardImage::NotFound.write_to_buffer(&mut out).unwrap(), 0);
    assert_eq!(out, vec![4, 5, 6]);
    let mut out = Vec::new();
    assert_eq!(ClipboardImage::NotFound.write_to_buffer(&mut out).unwrap(), 0);
    assert!(out.is_empty());
}

#[test]
fn a_picture_is_encoded_and_the_bytes_added_are_counted() {
    let drawn = picture(5, 3);
    let expected = encoded(&drawn, ImageFormat::Png);
    let image = ClipboardImage::ImageBinary(CodecTag::Png, Some(drawn));
    let mut out = vec![0xaa; 10];
    let written = image.write_to_buffer(&mut out).unwrap();
    assert_eq!(written, expected.len());
    assert_eq!(out.len(), 10 + expected.len());
    assert_eq!(&out[..10], &[0xaa; 10]);
    assert_eq!(&out[10..], &expected[..]);
}

#[test]
fn each_codec_writes_its_own_format() {
    let drawn = DynamicImage::ImageRgba8(picture(4, 4).to_rgba8());
    for (tag, format) in [
        (CodecTag::Bmp, ImageFormat::Bmp),
        (CodecTag::Png, ImageFormat::Png),
        (CodecTag::Jpeg, ImageFormat::Jpeg),
        (CodecTag::Gif, ImageFormat::Gif),
        (CodecTag::Ico, ImageFormat::Ico),
    ] {
        let image = ClipboardImage::ImageBinary(tag, Some(drawn.clone()));
        let mut out = Vec::new();
        let written = image.write_to_buffer(&mut out).unwrap();
        assert_eq!(written, out.len());
        assert_eq!(out, encoded(&drawn, format));
        let back = image::load_from_memory_with_format(&out, format).unwrap();
        assert_eq!(back.dimensions(), (4, 4));
    }
}

#[test]
fn a_picture_the_codec_cannot_write_leaves_the_buffer_alone() {
    let too_wide_for_an_icon = picture(300, 2);
    let image = ClipboardImage::ImageBinary(CodecTag::Ico, Some(too_wide_for_an_icon));
    let mut out = vec![1, 2, 3];
    assert!(matches!(image.write_to_buffer(&mut out), Err(ClipboardError::EncodeFailed)));
    assert_eq!(out, vec![1, 2, 3]);
}

#[test]
fn what_an_encoder_hands_back_is_appended() {
    let mut out = vec![1, 2];
    assert_eq!(append_encoded(&mut out, Ok(vec![3, 4, 5])).unwrap(), 3);
    assert_eq!(out, vec![1, 2, 3, 4, 5]);
    assert_eq!(append_encoded(&mut out, Ok(Vec::new())).unwrap(), 0);
    assert_eq!(out, vec![1, 2, 3, 4, 5]);
}

#[test]
fn an_encoder_failure_is_reported_and_nothing_appended() {
    let failure = image::load_from_memory_with_format(b"junk", ImageFormat::Png).map(|_| Vec::new());
    assert!(failure.is_err());
    let mut out = vec![1, 2];
    assert!(matches!(append_encoded(&mut out, failure), Err(ClipboardError::EncodeFailed)));
    assert_eq!(out, vec![1, 2]);
}

struct Ready(Vec<u8>);

impl From<Ready> for ClipboardImage {
    fn from(ready: Ready) -> ClipboardImage {
        ClipboardImage::ImageString(7, "image/svg+xml".to_string(), ready.0)
    }
}

#[test]
fn an_image_is_made_of_what_converts_into_one() {
    match ClipboardImage::new(Ready(vec![1, 2, 3])) {
        ClipboardImage::ImageString(7, name, bytes) => {
            assert_eq!(name, "image/svg+xml");
            assert_eq!(bytes, vec![1, 2, 3]);
        }
        _ => panic!("text was expected"),
    }
    assert!(matches!(ClipboardImage::new(ClipboardImage::NotFound), ClipboardImage::NotFound));
}

#[test]
fn the_bitmap_encoder_is_kept_from_pictures_beyond_its_arithmetic() {
    for kind in [PixelKind::Luma8, PixelKind::LumaAlpha8, PixelKind::Rgb8, PixelKind::Rgba8] {
        assert!(fits_encoder(0, 0, kind, CodecTag::Bmp));
        assert!(fits_encoder(1, 1, kind, CodecTag::Bmp));
        assert!(fits_encoder(20_000, 20_000, kind, CodecTag::Bmp));
        assert!(!fits_encoder(u32::MAX, u32::MAX, kind, CodecTag::Bmp));
        assert!(!fits_encoder(70_000, 70_000, kind, CodecTag::Bmp));
    }
}

#[test]
fn the_file_of_a_bitmap_has_to_fit_its_length_field() {
    // 16384 * 3 bytes a row, no padding: 54 + 3 * 16384 * h <= 4294967295.
    assert!(fits_encoder(16_384, 87_381, PixelKind::Rgb8, CodecTag::Bmp));
    assert!(!fits_encoder(16_384, 87_382, PixelKind::Rgb8, CodecTag::Bmp));
    // 4 bytes a pixel: 122 + 4 * 32768 * h <= 4294967295.
    assert!(fits_encoder(32_768, 32_767, PixelKind::Rgba8, CodecTag::Bmp));
    assert!(!fits_encoder(32_768, 32_768, PixelKind::Rgba8, CodecTag::Bmp));
    // one byte a pixel and three of padding a row: 1078 + 4 * h <= 4294967295.
    assert!(fits_encoder(1, 1_073_741_554, PixelKind::Luma8, CodecTag::Bmp));
    assert!(!fits_encoder(1, 1_073_741_555, PixelKind::Luma8, CodecTag::Bmp));
    assert!(!fits_encoder(1, 1_500_000_000, PixelKind::Luma8, CodecTag::Bmp));
    // grey pictures may hold more pixels than coloured ones.
    assert!(fits_encoder(40_000, 40_000, PixelKind::Luma8, CodecTag::Bmp));
    assert!(!fits_encoder(40_000, 40_000, PixelKind::Rgb8, CodecTag::Bmp));
}

#[test]
fn a_row_of_a_bitmap_has_to_fit_in_32_bits() {
    assert!(fits_encoder(1_431_655_765, 0, PixelKind::Rgb8, CodecTag::Bmp));
    assert!(!fits_encoder(1_431_655_766, 0, PixelKind::Rgb8, CodecTag::Bmp));
    assert!(fits_encoder(1_073_741_823, 0, PixelKind::Rgba8, CodecTag::Bmp));
    assert!(!fits_encoder(1_073_741_824, 0, PixelKind::Rgba8, CodecTag::Bmp));
    assert!(fits_encoder(u32::MAX, 0, PixelKind::Luma8, CodecTag::Bmp));
    assert!(fits_encoder(0, u32::MAX, PixelKind::Rgba8, CodecTag::Bmp));
}

#[test]
fn grey_with_alpha_is_read_two_bytes_apart() {
    assert!(fits_encoder(0x7fff_ffff, 0, PixelKind::LumaAlpha8, CodecTag::Bmp));
    assert!(!fits_encoder(0x8000_0000, 0, PixelKind::LumaAlpha8, CodecTag::Bmp));
    assert!(fits_encoder(0x8000_0000, 0, PixelKind::Luma8, CodecTag::Bmp));
    assert!(fits_encoder(65_536, 32_768, PixelKind::LumaAlpha8, CodecTag::Bmp));
    assert!(!fits_encoder(65_536, 32_769, PixelKind::LumaAlpha8, CodecTag::Bmp));
    assert!(fits_encoder(65_536, 32_769, PixelKind::Luma8, CodecTag::Bmp));
}

#[test]
fn pixels_the_bitmap_encoder_refuses_may_come_in_any_number() {
    assert!(fits_encoder(u32::MAX, u32::MAX, PixelKind::Other, CodecTag::Bmp));
    assert!(fits_encoder(0, 0, PixelKind::Other, CodecTag::Bmp));
}

#[test]
fn the_other_encoders_take_any_size() {
    for tag in [CodecTag::Png, CodecTag::Jpeg, CodecTag::Gif, CodecTag::Ico, CodecTag::WebP] {
        for kind in [PixelKind::Luma8, PixelKind::LumaAlpha8, PixelKind::Rgb8, PixelKind::Rgba8, PixelKind::Other] {
            assert!(fits_encoder(u32::MAX, u32::MAX, kind, tag));
            assert!(fits_encoder(0, 0, kind, tag));
        }
    }
}

#[test]
fn a_picture_too_wide_for_the_bitmap_encoder_is_not_written() {
    let wide = image::RgbImage::from_raw(1 << 31, 0, Vec::new()).unwrap();
    let image = ClipboardImage::ImageBinary(CodecTag::Bmp, Some(DynamicImage::ImageRgb8(wide)));
    let mut out = vec![1, 2, 3];
    assert!(matches!(image.write_to_buffer(&mut out), Err(ClipboardError::EncodeFailed)));
    assert_eq!(out, vec![1, 2, 3]);
}

#[test]
fn pictures_without_pixels_do_not_upset_the_encoders() {
    for (width, height) in [(0, 0), (0, 5), (5, 0)] {
        for tag in [CodecTag::Bmp, CodecTag::Png, CodecTag::Jpeg, CodecTag::Gif, CodecTag::Ico, CodecTag::WebP] {
            let empty = image::RgbaImage::from_raw(width, height, Vec::new()).unwrap();
            let image = ClipboardImage::ImageBinary(tag, Some(DynamicImage::ImageRgba8(empty)));
            let mut out = vec![7];
            match image.write_to_buffer(&mut out) {
                Ok(written) => assert_eq!(out.len(), 1 + written),
                Err(error) => {
                    assert!(matches!(error, ClipboardError::EncodeFailed));
                    assert_eq!(out, vec![7]);
                }
            }
        }
    }
}

#[test]
fn a_picture_the_format_has_no_encoder_for_is_not_written() {
    let image = ClipboardImage::ImageBinary(CodecTag::WebP, Some(picture(2, 2)));
    let mut out = Vec::new();
    assert!(matches!(image.write_to_buffer(&mut out), Err(ClipboardError::EncodeFailed)));
    assert!(out.is_empty());
}

fn every_kind_of_picture(width: u32, height: u32) -> Vec<DynamicImage> {
    let drawn = picture(width, height);
    vec![
        DynamicImage::ImageLuma8(drawn.to_luma8()),
        DynamicImage::ImageLumaA8(drawn.to_luma_alpha8()),
        DynamicImage::ImageRgb8(drawn.to_rgb8()),
        DynamicImage::ImageRgba8(drawn.to_rgba8()),
        DynamicImage::ImageBgr8(drawn.to_bgr8()),
        DynamicImage::ImageBgra8(drawn.to_bgra8()),
        DynamicImage::ImageLuma16(drawn.to_luma16()),
        DynamicImage::ImageLumaA16(drawn.to_luma_alpha16()),
        DynamicImage::ImageRgb16(drawn.to_rgb16()),
        DynamicImage::ImageRgba16(drawn.to_rgba16()),
    ]
}

#[test]
fn every_kind_of_picture_is_written_or_refused() {
    for (width, height) in [(1, 1), (3, 5), (16, 16), (257, 1), (1, 257), (300, 70)] {
        for drawn in every_kind_of_picture(width, height) {
            for tag in [CodecTag::Bmp, CodecTag::Png, CodecTag::Jpeg, CodecTag::Gif, CodecTag::Ico, CodecTag::WebP] {
                let image = ClipboardImage::ImageBinary(tag, Some(drawn.clone()));
                let mut out = vec![7, 7];
                match image.write_to_buffer(&mut out) {
                    Ok(written) => {
                        assert!(written > 0);
                        assert_eq!(out.len(), 2 + written);
                        assert_eq!(&out[..2], &[7, 7]);
                    }
                    Err(error) => {
                        assert!(matches!(error, ClipboardError::EncodeFailed));
                        assert_eq!(out, vec![7, 7]);
                    }
                }
            }
        }
    }
}

#[test]
fn a_picture_with_spare_bytes_behind_its_pixels_is_written_or_refused() {
    let roomy = vec![
        DynamicImage::ImageRgb8(image::RgbImage::from_raw(3, 2, vec![9; 3 * 2 * 3 + 5]).unwrap()),
        DynamicImage::ImageRgba8(image::RgbaImage::from_raw(3, 2, vec![9; 3 * 2 * 4 + 7]).unwrap()),
        DynamicImage::ImageLuma8(image::GrayImage::from_raw(3, 2, vec![9; 3 * 2 + 1]).unwrap()),
        DynamicImage::ImageRgba8(image::RgbaImage::from_raw(0, 0, vec![9; 4]).unwrap()),
    ];
    for drawn in roomy {
        for tag in [CodecTag::Bmp, CodecTag::Png, CodecTag::Jpeg, CodecTag::Gif, CodecTag::Ico, CodecTag::WebP] {
            let image = ClipboardImage::ImageBinary(tag, Some(drawn.clone()));
            let mut out = vec![7, 7];
            match image.write_to_buffer(&mut out) {
                Ok(written) => assert_eq!(out.len(), 2 + written),
                Err(error) => {
                    assert!(matches!(error, ClipboardError::EncodeFailed));
                    assert_eq!(out, vec![7, 7]);
                }
            }
        }
    }
}

#[test]
fn pictures_of_unusual_shape_are_written_or_refused() {
    let shapes = vec![
        image::RgbImage::from_raw(1 << 31, 0, Vec::new()).unwrap(),
        image::RgbImage::from_raw(0, 1 << 31, Vec::new()).unwrap(),
        image::RgbImage::from_raw(u32::MAX, 0, Vec::new()).unwrap(),
        image::RgbImage::from_raw(0, u32::MAX, Vec::new()).unwrap(),
        image::RgbImage::from_raw(70_000, 1, vec![5; 210_000]).unwrap(),
        image::RgbImage::from_raw(1, 70_000, vec![5; 210_000]).unwrap(),
    ];
    for shape in shapes {
        for tag in [CodecTag::Bmp, CodecTag::Png, CodecTag::Jpeg, CodecTag::Gif, CodecTag::Ico, CodecTag::WebP] {
            let image = ClipboardImage::ImageBinary(tag, Some(DynamicImage::ImageRgb8(shape.clone())));
            let mut out = vec![7, 7];
            match image.write_to_buffer(&mut out) {
                Ok(written) => assert_eq!(out.len(), 2 + written),
                Err(error) => {
                    assert!(matches!(error, ClipboardError::EncodeFailed));
                    assert_eq!(out, vec![7, 7]);
                }
            }
        }
    }
}

#[test]
fn a_bitmap_is_written_for_each_kind_of_pixel_the_encoder_knows() {
    let drawn = picture(5, 3);
    let known = vec![
        DynamicImage::ImageLuma8(drawn.to_luma8()),
        DynamicImage::ImageLumaA8(drawn.to_luma_alpha8()),
        DynamicImage::ImageRgb8(drawn.to_rgb8()),
        DynamicImage::ImageRgba8(drawn.to_rgba8()),
    ];
    for kind in known {
        let expected = encoded(&kind, ImageFormat::Bmp);
        let mut out = vec![1];
        let written = ClipboardImage::ImageBinary(CodecTag::Bmp, Some(kind)).write_to_buffer(&mut out).unwrap();
        assert_eq!(written, expected.len());
        assert_eq!(&out[1..], &expected[..]);
    }
    let refused = vec![
        DynamicImage::ImageBgr8(drawn.to_bgr8()),
        DynamicImage::ImageBgra8(drawn.to_bgra8()),
        DynamicImage::ImageLuma16(drawn.to_luma16()),
        DynamicImage::ImageRgba16(drawn.to_rgba16()),
    ];
    for kind in refused {
        let mut out = vec![1];
        let written = ClipboardImage::ImageBinary(CodecTag::Bmp, Some(kind)).write_to_buffer(&mut out);
        assert!(matches!(written, Err(ClipboardError::EncodeFailed)));
        assert_eq!(out, vec![1]);
    }
}
