//! The image codec, as far as this library relies on it.
//!
//! Nothing in here is proved: each contract says what the library takes on
//! trust from the `image` crate. Of the decoders only the one for bitmap
//! files is called from here, on files that declare a moderate number of
//! pixels. The other decoders give no account of the bytes on which they stop
//! with a panic; for them the library hands the bytes to its driver and takes
//! the decoder's result back (see `builder`).

use vstd::prelude::*;
use image::{ColorType, DynamicImage, GenericImageView, ImageError, ImageFormat};
use crate::catalog::CodecTag;
use crate::dib::bitmap_screened;

verus! {

/// A decoded picture, `image::DynamicImage`. The library only carries it
/// from the decoder to the encoder and never looks inside.
#[verifier::external_type_specification]
#[verifier::external_body]
pub struct ExDynamicImage(image::DynamicImage);

/// The codec's own account of a failure, `image::ImageError`.
#[verifier::external_type_specification]
#[verifier::external_body]
pub struct ExImageError(image::ImageError);

/// The kinds of pixel that the bitmap encoder writes, and one for all the
/// kinds that it refuses.
#[derive(Clone, Copy, Debug, PartialEq, Eq, Structural)]
pub enum PixelKind {
    /// One byte of grey.
    Luma8,
    /// One byte of grey and one of alpha.
    LumaAlpha8,
    /// One byte each of red, green and blue.
    Rgb8,
    /// One byte each of red, green, blue and alpha.
    Rgba8,
    /// Any other kind of pixel.
    Other,
}

/// The kind of pixel a picture holds, as `image::DynamicImage::color` gives it.
pub uninterp spec fn picture_pixels(picture: DynamicImage) -> PixelKind;

/// The width of a picture in pixels, as `image::GenericImageView::width` gives it.
pub uninterp spec fn picture_width(picture: DynamicImage) -> u32;

/// The height of a picture in pixels, as `image::GenericImageView::height` gives it.
pub uninterp spec fn picture_height(picture: DynamicImage) -> u32;

/// What `image::load_from_memory_with_format` makes of `file` read as a
/// bitmap file: the picture, or why there is none.
pub uninterp spec fn bitmap_decode_outcome(file: Seq<u8>) -> Result<DynamicImage, ImageError>;

/// What `image::DynamicImage::write_to` writes for `image` in the format of
/// `tag`: the bytes of the file, or why there are none.
pub uninterp spec fn encode_outcome(image: DynamicImage, tag: CodecTag) -> Result<Seq<u8>, ImageError>;

/// The bytes an encoder handed back, as a sequence.
pub open spec fn encoded_view(encoded: Result<Vec<u8>, ImageError>) -> Result<Seq<u8>, ImageError> {
    match encoded {
        Ok(bytes) => Ok(bytes@),
        Err(error) => Err(error),
    }
}

/// The number of bytes that the bitmap encoder writes for a pixel. It writes
/// no alpha beside grey.
pub open spec fn written_bytes(kind: PixelKind) -> int {
    match kind {
        PixelKind::Luma8 => 1,
        PixelKind::LumaAlpha8 => 1,
        PixelKind::Rgb8 => 3,
        PixelKind::Rgba8 => 4,
        PixelKind::Other => 0,
    }
}

/// The number of bytes that the bitmap encoder writes before the pixels: the
/// file header, the info header it chooses for the kind of pixel, and for
/// grey a palette of 256 colours.
pub open spec fn headers_len(kind: PixelKind) -> int {
    match kind {
        PixelKind::Luma8 => 1078,
        PixelKind::LumaAlpha8 => 1078,
        PixelKind::Rgb8 => 54,
        PixelKind::Rgba8 => 122,
        PixelKind::Other => 0,
    }
}

/// The number of bytes that fill a row of `row_bytes` bytes up to a multiple of four.
pub open spec fn row_padding(row_bytes: int) -> int {
    (4 - row_bytes % 4) % 4
}

/// Whether the sums that the bitmap encoder computes in 32 bits, without
/// looking for overflow, stay in range for a picture of this width, height
/// and kind of pixel: the length of a row, of the padding of all rows and of
/// the whole file, and for grey with alpha, which it reads two bytes apart,
/// its place in the picture.
pub open spec fn bitmap_sums_fit(width: u32, height: u32, kind: PixelKind) -> bool {
    &&& width * written_bytes(kind) <= u32::MAX
    &&& headers_len(kind) + width * height * written_bytes(kind) + height * row_padding(
        width * written_bytes(kind),
    ) <= u32::MAX
    &&& kind == PixelKind::LumaAlpha8 ==> 2 * width <= u32::MAX && width * height <= 0x8000_0000
}

/// Whether a picture of this width, height and kind of pixel can be handed
/// to the encoder of `tag`. Only the bitmap encoder sets a bound, and only
/// for the kinds of pixel it writes: its sums have to fit. Beyond the bound
/// the encoder has nothing right to give: it reports failure, stops with a
/// panic, or, where overflow goes unnoticed, writes sums that are wrong.
pub open spec fn encodable(width: u32, height: u32, kind: PixelKind, tag: CodecTag) -> bool {
    tag == CodecTag::Bmp && kind != PixelKind::Other ==> bitmap_sums_fit(width, height, kind)
}

/// Calls `image::DynamicImage::color` on a picture and tells the kinds of
/// pixel apart that the bitmap encoder writes. The contract only gives the
/// result its name.
#[verifier::external_body]
pub(crate) fn pixels(picture: &DynamicImage) -> (kind: PixelKind)
    ensures
        kind == picture_pixels(*picture),
{
    match picture.color() {
        ColorType::L8 => PixelKind::Luma8,
        ColorType::La8 => PixelKind::LumaAlpha8,
        ColorType::Rgb8 => PixelKind::Rgb8,
        ColorType::Rgba8 => PixelKind::Rgba8,
        ColorType::L16 => PixelKind::Other,
        ColorType::La16 => PixelKind::Other,
        ColorType::Rgb16 => PixelKind::Other,
        ColorType::Rgba16 => PixelKind::Other,
        ColorType::Bgr8 => PixelKind::Other,
        ColorType::Bgra8 => PixelKind::Other,
        _ => PixelKind::Other,
    }
}

/// Calls `image::GenericImageView::width` on a picture. The contract only
/// gives the result its name.
#[verifier::external_body]
pub(crate) fn width(picture: &DynamicImage) -> (pixels: u32)
    ensures
        pixels == picture_width(*picture),
{
    picture.width()
}

/// Calls `image::GenericImageView::height` on a picture. The contract only
/// gives the result its name.
#[verifier::external_body]
pub(crate) fn height(picture: &DynamicImage) -> (pixels: u32)
    ensures
        pixels == picture_height(*picture),
{
    picture.height()
}

/// Calls `image::load_from_memory_with_format` on `file`, with the format of
/// bitmap files. The contract claims that the call returns on a file that
/// passes `bitmap_screened`, and that its result depends on the bytes alone.
/// The bound on the declared pixels is the decoder's own limit for the buffer
/// it starts with. For a file that declares more it starts with a buffer
/// shorter than the picture and grows it later, and there it has two ways to
/// stop with a panic. A run-length encoded file that ends early leaves the
/// short buffer as it is, which is then copied into one of the full length.
/// And growing the buffer by less than half its length, for a file stored
/// from the bottom up, reaches past the end of a slice. At or below the bound
/// nothing is grown.
#[verifier::external_body]
pub(crate) fn decode_bitmap(file: &[u8]) -> (decoded: Result<DynamicImage, ImageError>)
    requires
        bitmap_screened(file@),
    ensures
        decoded == bitmap_decode_outcome(file@),
{
    image::load_from_memory_with_format(file, ImageFormat::Bmp)
}

/// Calls `image::DynamicImage::write_to` on `image`, with the format that
/// `tag` stands for and an empty buffer to write to. The contract claims that
/// the call returns on a picture within the bound of `encodable`, and that
/// what it wrote, or the failure it reported, depends on the picture and the
/// format alone.
#[verifier::external_body]
pub(crate) fn encode(image: &DynamicImage, tag: CodecTag) -> (encoded: Result<Vec<u8>, ImageError>)
    requires
        encodable(picture_width(*image), picture_height(*image), picture_pixels(*image), tag),
    ensures
        encoded_view(encoded) == encode_outcome(*image, tag),
{
    let format = match tag {
        CodecTag::Bmp => ImageFormat::Bmp,
        CodecTag::Png => ImageFormat::Png,
        CodecTag::Jpeg => ImageFormat::Jpeg,
        CodecTag::Gif => ImageFormat::Gif,
        CodecTag::Ico => ImageFormat::Ico,
        CodecTag::WebP => ImageFormat::WebP,
    };
    let mut buffer: Vec<u8> = Vec::new();
    match image.write_to(&mut buffer, format) {
        Ok(()) => Ok(buffer),
        Err(error) => Err(error),
    }
}

/// Tells whether a picture of this width, height and kind of pixel can be
/// handed to the encoder of `tag`.
pub fn fits_encoder(width: u32, height: u32, kind: PixelKind, tag: CodecTag) -> (fits: bool)
    ensures
        fits == encodable(width, height, kind, tag),
{
    let (written, headers): (u64, u64) = match kind {
        PixelKind::Luma8 => (1, 1078),
        PixelKind::LumaAlpha8 => (1, 1078),
        PixelKind::Rgb8 => (3, 54),
        PixelKind::Rgba8 => (4, 122),
        PixelKind::Other => {
            return true;
        },
    };
    match tag {
        CodecTag::Bmp => {},
        _ => {
            return true;
        },
    }
    let row: u64 = (width as u64) * written;
    if row > 0xffff_ffff {
        return false;
    }
    let padding: u64 = (4 - row % 4) % 4;
    assert(0 <= width * height <= 0xffff_ffff * 0xffff_ffff) by (nonlinear_arith)
        requires
            0 <= width <= 0xffff_ffff,
            0 <= height <= 0xffff_ffff,
    ;
    let area: u64 = (width as u64) * (height as u64);
    assert(width * height * written == area * written) by (nonlinear_arith)
        requires
            area == width * height,
    ;
    if area > 0xffff_ffff {
        assert(area * written >= area) by (nonlinear_arith)
            requires
                written >= 1,
                area >= 0,
        ;
        return false;
    }
    assert(area * written <= 0xffff_ffff * 4) by (nonlinear_arith)
        requires
            0 <= area <= 0xffff_ffff,
            0 <= written <= 4,
    ;
    assert(height * padding <= 0xffff_ffff * 3) by (nonlinear_arith)
        requires
            0 <= height <= 0xffff_ffff,
            0 <= padding <= 3,
    ;
    if headers + area * written + (height as u64) * padding > 0xffff_ffff {
        return false;
    }
    match kind {
        PixelKind::LumaAlpha8 => 2 * (width as u64) <= 0xffff_ffff && area <= 0x8000_0000,
        _ => true,
    }
}

} // verus!
