//! Gives a bare device-independent bitmap the file header it lacks.
//!
//! A bitmap blob as the clipboard holds it starts with the info header and
//! goes on with an optional colour table and the pixels. A decoder of bitmap
//! files expects fourteen more bytes in front: a magic number, the length of
//! the whole file, four reserved bytes, and the offset at which the pixels
//! start. All numbers are little-endian.

use vstd::prelude::*;
use crate::le::{
    le_u16, le_u16_at, le_u32, le_u32_at, lemma_le_u32_layout, lemma_le_u32_value, push_le_u16,
    push_le_u32, read_le_u16, read_le_u32,
};

verus! {

/// Length of the file header that is put in front of the blob.
pub const FILE_HEADER_LEN: usize = 14;

/// Length of the info header that a blob starts with.
pub const INFO_HEADER_LEN: usize = 124;

/// Where, within the info header, the declared length of the pixel data stands.
pub const SIZE_IMAGE_AT: usize = 20;

/// The magic number of a bitmap file: the letters `BM` read as a little-endian number.
pub const BITMAP_MAGIC: u16 = 0x4d42;

/// The largest blob whose file still has a length that fits the header's field.
pub const MAX_DIB_LEN: usize = 0xffff_fff1;

/// Length of the oldest kind of info header, which holds width and height in
/// sixteen bits each.
pub const CORE_HEADER_LEN: u32 = 12;

/// The shortest bitmap file that holds a width and a height: the file header
/// and the oldest kind of info header.
pub const SHORTEST_BITMAP_LEN: usize = 26;

/// The largest number of pixels that a bitmap file may declare and still be
/// handed to the decoder.
pub const MAX_DECODED_PIXELS: u64 = 33_554_432;

/// What the header says of a file: its length and where its pixels start.
pub struct FileHeader {
    pub file_size: u32,
    pub pixel_offset: u32,
}

/// Where the pixels start in the file made from a blob of `raw_len` bytes
/// whose info header declares `size_image` bytes of pixel data. A declared
/// length of zero means that no colour table follows the info header;
/// otherwise the pixels are the last `size_image` bytes of the blob.
pub open spec fn pixel_offset(raw_len: int, size_image: int) -> int {
    if size_image == 0 {
        FILE_HEADER_LEN + INFO_HEADER_LEN
    } else {
        FILE_HEADER_LEN + (raw_len - size_image)
    }
}

/// Whether a file header can be written for such a blob: the file's length
/// fits its field and the declared pixel data is no longer than the blob.
pub open spec fn wrappable(raw_len: int, size_image: int) -> bool {
    &&& 0 <= size_image <= raw_len
    &&& raw_len <= MAX_DIB_LEN
}

/// The header of the file made from such a blob.
pub open spec fn header_for(raw_len: int, size_image: int) -> FileHeader
    recommends
        wrappable(raw_len, size_image),
{
    FileHeader {
        file_size: (FILE_HEADER_LEN + raw_len) as u32,
        pixel_offset: pixel_offset(raw_len, size_image) as u32,
    }
}

/// The fourteen bytes of a file header.
pub open spec fn header_bytes(header: FileHeader) -> Seq<u8> {
    le_u16(BITMAP_MAGIC) + le_u32(header.file_size) + le_u16(0) + le_u16(0) + le_u32(
        header.pixel_offset,
    )
}

/// The bitmap file made from the blob `raw`: the header, then the blob as it is.
pub open spec fn container(raw: Seq<u8>, size_image: u32) -> Seq<u8> {
    header_bytes(header_for(raw.len() as int, size_image as int)) + raw
}

/// The length of the pixel data that the info header at the start of `raw` declares.
pub open spec fn declared_size_image(raw: Seq<u8>) -> int
    recommends
        raw.len() >= INFO_HEADER_LEN,
{
    le_u32_at(raw, SIZE_IMAGE_AT as int)
}

/// The bitmap file made from `raw` by its own info header, where there is one:
/// none for a blob too short to hold an info header, or for which no header
/// can be written.
pub open spec fn container_of(raw: Seq<u8>) -> Option<Seq<u8>> {
    if raw.len() >= INFO_HEADER_LEN && wrappable(raw.len() as int, declared_size_image(raw)) {
        Some(container(raw, declared_size_image(raw) as u32))
    } else {
        None
    }
}

/// The width that the info header of a bitmap file declares.
pub open spec fn declared_width(file: Seq<u8>) -> int
    recommends
        file.len() >= SHORTEST_BITMAP_LEN,
{
    if le_u32_at(file, 14) == CORE_HEADER_LEN {
        le_u16_at(file, 18)
    } else {
        le_u32_at(file, 18)
    }
}

/// The number of rows that the info header of a bitmap file declares. A
/// height that is negative as a signed number stands for as many rows, stored
/// from the top down.
pub open spec fn declared_rows(file: Seq<u8>) -> int
    recommends
        file.len() >= SHORTEST_BITMAP_LEN,
{
    if le_u32_at(file, 14) == CORE_HEADER_LEN {
        le_u16_at(file, 20)
    } else if le_u32_at(file, 22) < 0x8000_0000 {
        le_u32_at(file, 22)
    } else {
        0x1_0000_0000 - le_u32_at(file, 22)
    }
}

/// Whether a bitmap file may be handed to the decoder: it is long enough to
/// hold a width and a height, and declares no more pixels than
/// `MAX_DECODED_PIXELS`.
pub open spec fn bitmap_screened(file: Seq<u8>) -> bool {
    &&& file.len() >= SHORTEST_BITMAP_LEN
    &&& declared_width(file) * declared_rows(file) <= MAX_DECODED_PIXELS
}

/// Whether `file` starts with a file header that says the truth about it: the
/// magic number, the file's own length, zeroes in the reserved bytes, and the
/// pixel offset that follows from the info header behind it.
pub open spec fn has_true_header(file: Seq<u8>) -> bool {
    &&& file.len() >= FILE_HEADER_LEN + INFO_HEADER_LEN
    &&& file.len() <= u32::MAX
    &&& file[0] == 0x42 && file[1] == 0x4d
    &&& le_u32_at(file, 2) == file.len()
    &&& file[6] == 0 && file[7] == 0 && file[8] == 0 && file[9] == 0
    &&& declared_size_image(file.skip(FILE_HEADER_LEN as int)) <= file.len() - FILE_HEADER_LEN
    &&& le_u32_at(file, 10) == pixel_offset(
        file.len() - FILE_HEADER_LEN,
        declared_size_image(file.skip(FILE_HEADER_LEN as int)),
    )
}

/// The header is fourteen bytes long and holds, field by field, the magic
/// number, the file's length, zeroes, and the pixel offset.
pub proof fn lemma_header_fields(header: FileHeader)
    ensures
        header_bytes(header).len() == FILE_HEADER_LEN,
        header_bytes(header)[0] == 0x42,
        header_bytes(header)[1] == 0x4d,
        le_u32_at(header_bytes(header), 2) == header.file_size,
        header_bytes(header).subrange(2, 6) == le_u32(header.file_size),
        header_bytes(header).subrange(6, 10) == seq![0u8, 0u8, 0u8, 0u8],
        le_u32_at(header_bytes(header), 10) == header.pixel_offset,
        header_bytes(header).subrange(10, 14) == le_u32(header.pixel_offset),
{
    let h = header_bytes(header);
    lemma_le_u32_value(header.file_size);
    lemma_le_u32_value(header.pixel_offset);
    assert(h.subrange(2, 6) =~= le_u32(header.file_size));
    assert(h.subrange(6, 10) =~= seq![0u8, 0u8, 0u8, 0u8]);
    assert(h.subrange(10, 14) =~= le_u32(header.pixel_offset));
}

/// What the file made from a blob looks like: fourteen bytes longer than the
/// blob, its pixel offset at bytes 10 to 13, and the blob unchanged from byte
/// 14 on. With a declared length of zero the offset is that of the byte after
/// the info header; otherwise it leaves out the last `size_image` bytes.
pub proof fn lemma_container_layout(raw: Seq<u8>, size_image: u32)
    requires
        wrappable(raw.len() as int, size_image as int),
    ensures
        container(raw, size_image).len() == FILE_HEADER_LEN + raw.len(),
        container(raw, size_image).skip(FILE_HEADER_LEN as int) == raw,
        container(raw, size_image)[0] == 0x42 && container(raw, size_image)[1] == 0x4d,
        le_u32_at(container(raw, size_image), 2) == FILE_HEADER_LEN + raw.len(),
        container(raw, size_image).subrange(6, 10) == seq![0u8, 0u8, 0u8, 0u8],
        size_image == 0 ==> le_u32_at(container(raw, size_image), 10) == FILE_HEADER_LEN
            + INFO_HEADER_LEN,
        size_image != 0 ==> le_u32_at(container(raw, size_image), 10) == FILE_HEADER_LEN + (
        raw.len() - size_image),
        container(raw, size_image).subrange(10, 14) == le_u32(
            pixel_offset(raw.len() as int, size_image as int) as u32,
        ),
{
    let header = header_for(raw.len() as int, size_image as int);
    let file = container(raw, size_image);
    lemma_header_fields(header);
    assert(file.skip(FILE_HEADER_LEN as int) =~= raw);
    assert(file.subrange(6, 10) =~= header_bytes(header).subrange(6, 10));
    assert(file.subrange(10, 14) =~= header_bytes(header).subrange(10, 14));
}

/// What the file looks like that a blob gets by its own info header. Every
/// blob that holds an info header, declares no more pixel data than it has
/// and is no longer than `MAX_DIB_LEN` gets a file. The file is fourteen
/// bytes longer than the blob and holds the blob unchanged from byte 14 on.
/// Its bytes 10 to 13 are 138, little-endian, where the declared length is
/// zero, whatever the length of the blob; otherwise they are fourteen more
/// than what stands before the last `size_image` bytes of the blob.
pub proof fn lemma_file_of_blob(raw: Seq<u8>)
    requires
        INFO_HEADER_LEN <= raw.len() <= MAX_DIB_LEN,
        declared_size_image(raw) <= raw.len(),
    ensures
        container_of(raw) matches Some(file) && {
            &&& file.len() == FILE_HEADER_LEN + raw.len()
            &&& file.skip(FILE_HEADER_LEN as int) == raw
            &&& le_u32_at(file, 2) == FILE_HEADER_LEN + raw.len()
            &&& declared_size_image(raw) == 0 ==> file.subrange(10, 14) == seq![138u8, 0u8, 0u8, 0u8]
            &&& declared_size_image(raw) != 0 ==> file.subrange(10, 14) == le_u32(
                (FILE_HEADER_LEN + (raw.len() - declared_size_image(raw))) as u32,
            )
            &&& declared_size_image(raw) != 0 ==> le_u32_at(file, 10) == FILE_HEADER_LEN + (
            raw.len() - declared_size_image(raw))
        },
{
    let size_image = declared_size_image(raw);
    assert(0 <= size_image <= u32::MAX) by {
        lemma_le_u32_layout(raw, SIZE_IMAGE_AT as int);
    }
    let declared = size_image as u32;
    assert(container_of(raw) == Some(container(raw, declared)));
    lemma_container_layout(raw, declared);
    if declared == 0 {
        assert(le_u32(138u32) =~= seq![138u8, 0u8, 0u8, 0u8]) by {
            reveal(le_u32);
        }
    }
}

/// A blob gets a file by its own info header only where it holds one,
/// declares no more pixel data than it has, and is no longer than
/// `MAX_DIB_LEN`.
pub proof fn lemma_no_file_of_blob(raw: Seq<u8>)
    requires
        raw.len() < INFO_HEADER_LEN || raw.len() > MAX_DIB_LEN || declared_size_image(raw)
            > raw.len(),
    ensures
        container_of(raw).is_none(),
{
}

/// A sequence that holds the five fields of a header and then `raw` is the
/// fields put one behind the other, and `raw` behind them.
proof fn lemma_assemble(
    file: Seq<u8>,
    magic: Seq<u8>,
    size: Seq<u8>,
    zero: Seq<u8>,
    offset: Seq<u8>,
    raw: Seq<u8>,
)
    requires
        file.len() >= 14,
        magic.len() == 2,
        size.len() == 4,
        zero.len() == 2,
        offset.len() == 4,
        file.subrange(0, 2) == magic,
        file.subrange(2, 6) == size,
        file.subrange(6, 8) == zero,
        file.subrange(8, 10) == zero,
        file.subrange(10, 14) == offset,
        file.skip(14) == raw,
    ensures
        magic + size + zero + zero + offset + raw == file,
{
    let again = magic + size + zero + zero + offset + raw;
    assert(again.len() == file.len());
    assert forall|i: int| 0 <= i < file.len() implies again[i] == file[i] by {
        if i < 2 {
            assert(file.subrange(0, 2)[i] == file[i]);
        } else if i < 6 {
            assert(file.subrange(2, 6)[i - 2] == file[i]);
        } else if i < 8 {
            assert(file.subrange(6, 8)[i - 6] == file[i]);
        } else if i < 10 {
            assert(file.subrange(8, 10)[i - 8] == file[i]);
        } else if i < 14 {
            assert(file.subrange(10, 14)[i - 10] == file[i]);
        } else {
            assert(file.skip(14)[i - 14] == file[i]);
        }
    }
    assert(again =~= file);
}

/// Taking the header off a file whose header says the truth and making the
/// file anew from what is left gives the same file, byte for byte.
pub proof fn lemma_strip_then_wrap(file: Seq<u8>)
    requires
        has_true_header(file),
    ensures
        container_of(file.skip(FILE_HEADER_LEN as int)) == Some(file),
{
    let raw = file.skip(FILE_HEADER_LEN as int);
    let declared = declared_size_image(raw);
    assert(0 <= declared) by {
        lemma_le_u32_layout(raw, SIZE_IMAGE_AT as int);
    }
    let header = header_for(raw.len() as int, declared);
    assert(file.subrange(2, 6) == le_u32(header.file_size)) by {
        lemma_le_u32_layout(file, 2);
    }
    assert(file.subrange(10, 14) == le_u32(header.pixel_offset)) by {
        lemma_le_u32_layout(file, 10);
    }
    assert(file.subrange(0, 2) =~= le_u16(BITMAP_MAGIC));
    assert(file.subrange(6, 8) =~= le_u16(0));
    assert(file.subrange(8, 10) =~= le_u16(0));
    lemma_assemble(
        file,
        le_u16(BITMAP_MAGIC),
        le_u32(header.file_size),
        le_u16(0),
        le_u32(header.pixel_offset),
        raw,
    );
}

/// Making a file from a blob and taking the header off again gives the blob,
/// and the file made has a header that says the truth, so that making it
/// anew changes nothing.
pub proof fn lemma_wrap_then_strip(raw: Seq<u8>)
    requires
        container_of(raw).is_some(),
    ensures
        container_of(raw).unwrap().skip(FILE_HEADER_LEN as int) == raw,
        has_true_header(container_of(raw).unwrap()),
        container_of(container_of(raw).unwrap().skip(FILE_HEADER_LEN as int)) == container_of(raw),
{
    let size_image = declared_size_image(raw);
    assert(0 <= size_image <= u32::MAX) by {
        lemma_le_u32_layout(raw, SIZE_IMAGE_AT as int);
    }
    let declared = size_image as u32;
    let file = container(raw, declared);
    assert(container_of(raw) == Some(file));
    lemma_container_layout(raw, declared);
    assert(file.skip(FILE_HEADER_LEN as int) == raw);
    assert(file[6] == 0 && file[7] == 0 && file[8] == 0 && file[9] == 0) by {
        let reserved = file.subrange(6, 10);
        assert(reserved[0] == file[6] && reserved[1] == file[7] && reserved[2] == file[8]
            && reserved[3] == file[9]);
    }
    assert(le_u32_at(file, 10) == pixel_offset(raw.len() as int, size_image));
    assert(has_true_header(file));
}

/// Writes the file header for a blob of `raw_len` bytes.
fn push_header(out: &mut Vec<u8>, raw_len: usize, size_image: u32)
    requires
        wrappable(raw_len as int, size_image as int),
    ensures
        final(out)@ == old(out)@ + header_bytes(header_for(raw_len as int, size_image as int)),
{
    let ghost header = header_for(raw_len as int, size_image as int);
    let file_size: u32 = (FILE_HEADER_LEN + raw_len) as u32;
    let offset: u32 = if size_image == 0 {
        (FILE_HEADER_LEN + INFO_HEADER_LEN) as u32
    } else {
        (FILE_HEADER_LEN + (raw_len - size_image as usize)) as u32
    };
    push_le_u16(out, BITMAP_MAGIC);
    push_le_u32(out, file_size);
    push_le_u16(out, 0);
    push_le_u16(out, 0);
    push_le_u32(out, offset);
    assert(out@ =~= old(out)@ + header_bytes(header));
}

/// Makes a bitmap file from the blob `raw`, whose info header declares
/// `size_image` bytes of pixel data: the file header, then `raw` unchanged.
pub fn wrap_dib(raw: &[u8], size_image: u32) -> (file: Vec<u8>)
    requires
        wrappable(raw@.len() as int, size_image as int),
    ensures
        file@ == container(raw@, size_image),
        file@.len() == FILE_HEADER_LEN + raw@.len(),
        file@.skip(FILE_HEADER_LEN as int) == raw@,
        le_u32_at(file@, 2) == FILE_HEADER_LEN + raw@.len(),
        le_u32_at(file@, 10) == pixel_offset(raw@.len() as int, size_image as int),
        file@.subrange(10, 14) == le_u32(pixel_offset(raw@.len() as int, size_image as int) as u32),
{
    let mut file: Vec<u8> = Vec::new();
    push_header(&mut file, raw.len(), size_image);
    let mut i: usize = 0;
    while i < raw.len()
        invariant
            i <= raw@.len(),
            file@ == header_bytes(header_for(raw@.len() as int, size_image as int))
                + raw@.subrange(0, i as int),
        decreases raw@.len() - i,
    {
        file.push(raw[i]);
        i += 1;
        assert(file@ =~= header_bytes(header_for(raw@.len() as int, size_image as int))
            + raw@.subrange(0, i as int));
    }
    proof {
        assert(raw@.subrange(0, i as int) =~= raw@);
        lemma_container_layout(raw@, size_image);
    }
    file
}

/// Tells whether a bitmap file may be handed to the decoder.
pub fn screen_bitmap(file: &[u8]) -> (screened: bool)
    ensures
        screened == bitmap_screened(file@),
{
    if file.len() < SHORTEST_BITMAP_LEN {
        return false;
    }
    let (width, rows): (u64, u64) = if read_le_u32(file, 14) == CORE_HEADER_LEN {
        (read_le_u16(file, 18) as u64, read_le_u16(file, 20) as u64)
    } else {
        let height: u64 = read_le_u32(file, 22) as u64;
        (read_le_u32(file, 18) as u64, if height < 0x8000_0000 {
            height
        } else {
            0x1_0000_0000 - height
        })
    };
    assert(0 <= width * rows <= 0xffff_ffff * 0xffff_ffff) by (nonlinear_arith)
        requires
            0 <= width <= 0xffff_ffff,
            0 <= rows <= 0xffff_ffff,
    ;
    width * rows <= MAX_DECODED_PIXELS
}

/// Reads the length of the pixel data that the info header of `raw` declares.
pub fn size_image(raw: &[u8]) -> (declared: u32)
    requires
        raw@.len() >= INFO_HEADER_LEN,
    ensures
        declared == declared_size_image(raw@),
{
    read_le_u32(raw, SIZE_IMAGE_AT)
}

/// Makes a bitmap file from the blob `raw` by the info header it starts with.
/// Gives nothing for a blob that is too short to hold an info header, too
/// long for the file's length to fit its field, or shorter than the pixel
/// data it declares.
pub fn container_from_dib(raw: &[u8]) -> (file: Option<Vec<u8>>)
    ensures
        file.is_some() <==> raw@.len() >= INFO_HEADER_LEN && wrappable(
            raw@.len() as int,
            declared_size_image(raw@),
        ),
        match file {
            Some(bytes) => container_of(raw@) == Some(bytes@),
            None => container_of(raw@).is_none(),
        },
{
    if raw.len() < INFO_HEADER_LEN || raw.len() > MAX_DIB_LEN {
        return None;
    }
    let declared = size_image(raw);
    if declared as usize > raw.len() {
        return None;
    }
    Some(wrap_dib(raw, declared))
}

} // verus!
