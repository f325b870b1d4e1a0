//! The image taken from the clipboard, and what can go wrong on the way.

use vstd::prelude::*;
use image::{DynamicImage, ImageError};
use crate::catalog::CodecTag;
use crate::codec::{
    encodable, encode, encode_outcome, fits_encoder, height, picture_height, picture_pixels,
    picture_width, pixels, width,
};

verus! {

/// What can go wrong between a caller's wish and an image.
#[derive(Debug)]
pub enum ClipboardError {
    /// A name that the catalog does not hold was asked for.
    UnknownFormatName,
    /// The memory behind a format could not be locked; carries the system's code.
    LockFailed(i32),
    /// The clipboard had no data for a format it had on offer.
    FetchFailed,
    /// The payload could not be read as an image of the codec named. Carries
    /// the codec's own account where the payload got as far as the codec.
    DecodeFailed(CodecTag, Option<ImageError>),
    /// The codec could not write the image.
    EncodeFailed,
}

/// An image from the clipboard.
#[derive(Debug)]
pub enum ClipboardImage {
    /// A picture read by a codec: the codec, and the decoded picture.
    ImageBinary(CodecTag, Option<DynamicImage>),
    /// An image that is text, such as SVG: the identifier and the name of the
    /// format it was found under, and the bytes as they were.
    ImageString(u32, String, Vec<u8>),
    /// None of the formats asked for was on offer.
    NotFound,
}

/// A clipboard image as a mathematical value.
pub enum ClipboardImageView {
    ImageBinary(CodecTag, Option<DynamicImage>),
    ImageString(u32, Seq<char>, Seq<u8>),
    NotFound,
}

impl View for ClipboardImage {
    type V = ClipboardImageView;

    open spec fn view(&self) -> ClipboardImageView {
        match self {
            ClipboardImage::ImageBinary(tag, picture) => ClipboardImageView::ImageBinary(
                *tag,
                *picture,
            ),
            ClipboardImage::ImageString(id, name, bytes) => ClipboardImageView::ImageString(
                *id,
                name@,
                bytes@,
            ),
            ClipboardImage::NotFound => ClipboardImageView::NotFound,
        }
    }
}

impl ClipboardImageView {
    /// Whether there is something to write: all but a binary image without its picture.
    pub open spec fn writable(self) -> bool {
        !(self matches ClipboardImageView::ImageBinary(_, None))
    }
}

/// The bytes that the codec of `tag` writes for `picture`: none where the
/// picture is beyond what the codec can write, or where the codec fails.
pub open spec fn encoding(picture: DynamicImage, tag: CodecTag) -> Option<Seq<u8>> {
    if encodable(picture_width(picture), picture_height(picture), picture_pixels(picture), tag) {
        match encode_outcome(picture, tag) {
            Ok(bytes) => Some(bytes),
            Err(_) => None,
        }
    } else {
        None
    }
}

/// Appends to `out` what an encoder handed back, and reports how many bytes
/// that were; leaves `out` as it was where the encoder failed.
pub fn append_encoded(out: &mut Vec<u8>, encoded: Result<Vec<u8>, ImageError>) -> (written: Result<
    usize,
    ClipboardError,
>)
    ensures
        match encoded {
            Ok(bytes) => {
                &&& final(out)@ == old(out)@ + bytes@
                &&& written matches Ok(count) && count == bytes@.len()
            },
            Err(_) => {
                &&& final(out)@ == old(out)@
                &&& written matches Err(ClipboardError::EncodeFailed)
            },
        },
{
    match encoded {
        Ok(mut bytes) => {
            let count = bytes.len();
            out.append(&mut bytes);
            Ok(count)
        },
        Err(_) => Err(ClipboardError::EncodeFailed),
    }
}

impl ClipboardImage {
    /// Makes an image from anything that can be turned into one.
    pub fn new<T>(args: T) -> (image: ClipboardImage) where T: Into<ClipboardImage>
        ensures
            call_ensures(<T as Into<ClipboardImage>>::into, (args,), image),
    {
        args.into()
    }

    /// Writes the image to the end of `out`. Text goes in as it is, and the
    /// buffer's new length is reported. A picture is encoded by its codec, and
    /// the number of bytes that this added is reported; where the picture is
    /// larger than the codec can take, or the codec fails, `out` stays as it
    /// was. Where nothing was found, nothing is written and zero reported.
    pub fn write_to_buffer(self, out: &mut Vec<u8>) -> (written: Result<usize, ClipboardError>)
        requires
            self@.writable(),
        ensures
            match self@ {
                ClipboardImageView::ImageString(_, _, bytes) => {
                    &&& final(out)@ == old(out)@ + bytes
                    &&& written matches Ok(count) && count == final(out)@.len()
                },
                ClipboardImageView::ImageBinary(tag, Some(picture)) => match encoding(picture, tag) {
                    Some(bytes) => {
                        &&& final(out)@ == old(out)@ + bytes
                        &&& written matches Ok(count) && count == bytes.len() && count
                            == final(out)@.len() - old(out)@.len()
                    },
                    None => {
                        &&& final(out)@ == old(out)@
                        &&& written matches Err(ClipboardError::EncodeFailed)
                    },
                },
                _ => {
                    &&& final(out)@ == old(out)@
                    &&& written matches Ok(count) && count == 0
                },
            },
    {
        match self {
            ClipboardImage::ImageString(_id, _name, mut bytes) => {
                out.append(&mut bytes);
                Ok(out.len())
            },
            ClipboardImage::ImageBinary(tag, Some(picture)) => {
                if fits_encoder(width(&picture), height(&picture), pixels(&picture), tag) {
                    let encoded = encode(&picture, tag);
                    append_encoded(out, encoded)
                } else {
                    Err(ClipboardError::EncodeFailed)
                }
            },
            ClipboardImage::ImageBinary(_, None) => unreached(),
            ClipboardImage::NotFound => Ok(0),
        }
    }
}

} // verus!
