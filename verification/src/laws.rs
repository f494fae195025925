//! What holds of every outcome of decoding.
//!
//! A lemma with the parameters `data` and `result` speaks of a buffer and of
//! any result that [`Bitmap::new`] may return for it, which is what
//! `decodes_to(data, result)` says.  A lemma with the parameter `bitmap`
//! speaks of any bitmap that decoding has produced.

use vstd::prelude::*;
use crate::bitmap::{decodable, decodes_to, pixel_byte, pixel_region, Bitmap};
use crate::error::BitmapError;
use crate::header::{
    depth, has_header, has_signature, pixel_data_size, pixel_end, pixel_offset, HEADER_LEN,
};
use crate::pixel::{high_nibble, low_nibble, supported_depth, Pixel};

verus! {

/// A buffer that does not start with `BM` is refused as invalid, whatever
/// else it holds and however long it is.
pub proof fn lemma_missing_signature_is_invalid(
    data: Seq<u8>,
    result: Result<Bitmap, BitmapError>,
)
    requires
        decodes_to(data, result),
        !has_signature(data),
    ensures
        result matches Err(error) && error == BitmapError::InvalidBitmapData,
{
}

/// A buffer that ends before its header does is refused as invalid.
pub proof fn lemma_short_header_is_invalid(data: Seq<u8>, result: Result<Bitmap, BitmapError>)
    requires
        decodes_to(data, result),
        data.len() < HEADER_LEN,
    ensures
        result matches Err(error) && error == BitmapError::InvalidBitmapData,
{
}

/// A buffer with a header whose depth is not 4, 24 or 32 is refused for its
/// depth, whatever its other fields hold.
pub proof fn lemma_unsupported_depth_is_refused(
    data: Seq<u8>,
    result: Result<Bitmap, BitmapError>,
)
    requires
        decodes_to(data, result),
        has_header(data),
        !supported_depth(depth(data)),
    ensures
        result matches Err(error) && error == BitmapError::UnsupportedBitsPerPixel,
{
}

/// A buffer with a header and a supported depth whose pixel data would reach
/// past its end is refused as invalid.
pub proof fn lemma_short_pixel_data_is_invalid(
    data: Seq<u8>,
    result: Result<Bitmap, BitmapError>,
)
    requires
        decodes_to(data, result),
        has_header(data),
        supported_depth(depth(data)),
        pixel_end(data) > data.len(),
    ensures
        result matches Err(error) && error == BitmapError::InvalidBitmapData,
{
}

/// Decoding succeeds on exactly the decodable buffers, and never reports an
/// I/O error.
pub proof fn lemma_success_iff_decodable(data: Seq<u8>, result: Result<Bitmap, BitmapError>)
    requires
        decodes_to(data, result),
    ensures
        result is Ok <==> decodable(data),
        result matches Err(error) ==> error == BitmapError::InvalidBitmapData || error
            == BitmapError::UnsupportedBitsPerPixel,
{
}

/// The pixel data of a decoded bitmap lies inside its buffer, from `offset`
/// on, and the bitmap reports the fields of that buffer.
pub proof fn lemma_pixel_data_in_bounds(bitmap: Bitmap)
    requires
        bitmap.wf(),
    ensures
        bitmap.offset == pixel_offset(bitmap.data@),
        bitmap.offset <= pixel_end(bitmap.data@) <= bitmap.data@.len(),
        pixel_region(bitmap.data@).len() == pixel_data_size(bitmap.data@),
        supported_depth(bitmap.header.bpp as int),
{
}

/// At 24 or 32 bits per pixel the number of pixels is the length of the pixel
/// data divided by four, rounded down; at 4 bits per pixel it is twice that
/// length.
pub proof fn lemma_pixel_count(bitmap: Bitmap)
    requires
        bitmap.wf(),
    ensures
        bitmap.header.bpp != 4 ==> bitmap.pixels@.len() == pixel_data_size(bitmap.data@) / 4,
        bitmap.header.bpp == 4 ==> bitmap.pixels@.len() == 2 * pixel_data_size(bitmap.data@),
{
}

/// At 4 bits per pixel every pixel is a palette index below 16; at 24 or 32
/// bits per pixel every pixel holds four channels.  No pixel holds three.
pub proof fn lemma_pixel_kinds(bitmap: Bitmap, i: int)
    requires
        bitmap.wf(),
        0 <= i < bitmap.pixels@.len(),
    ensures
        bitmap.header.bpp == 4 ==> (bitmap.pixels@[i] matches Pixel::PaletteColor(index) && index
            < 16),
        bitmap.header.bpp != 4 ==> bitmap.pixels@[i] is ABGR,
        !(bitmap.pixels@[i] is BGR),
{
}

/// At 32 (or 24) bits per pixel, pixel data of `4 * count` bytes gives
/// exactly `count` pixels, and each pixel holds four consecutive bytes of the
/// buffer in their order.
pub proof fn lemma_abgr_whole_groups(
    data: Seq<u8>,
    result: Result<Bitmap, BitmapError>,
    count: nat,
)
    requires
        decodes_to(data, result),
        decodable(data),
        depth(data) == 32 || depth(data) == 24,
        pixel_data_size(data) == 4 * count,
    ensures
        result matches Ok(bitmap) && bitmap.pixels@.len() == count && forall|i: int|
            0 <= i < count ==> #[trigger] bitmap.pixels@[i] == Pixel::ABGR(
                pixel_byte(data, 4 * i),
                pixel_byte(data, 4 * i + 1),
                pixel_byte(data, 4 * i + 2),
                pixel_byte(data, 4 * i + 3),
            ),
{
}

/// At 32 (or 24) bits per pixel, pixel data of `4 * count + rest` bytes with
/// `0 < rest < 4` gives exactly `count` pixels: the last `rest` bytes are
/// dropped.
pub proof fn lemma_abgr_partial_group_is_dropped(
    data: Seq<u8>,
    result: Result<Bitmap, BitmapError>,
    count: nat,
    rest: nat,
)
    requires
        decodes_to(data, result),
        decodable(data),
        depth(data) == 32 || depth(data) == 24,
        0 < rest < 4,
        pixel_data_size(data) == 4 * count + rest,
    ensures
        result matches Ok(bitmap) && bitmap.pixels@.len() == count && forall|i: int|
            0 <= i < count ==> #[trigger] bitmap.pixels@[i] == Pixel::ABGR(
                pixel_byte(data, 4 * i),
                pixel_byte(data, 4 * i + 1),
                pixel_byte(data, 4 * i + 2),
                pixel_byte(data, 4 * i + 3),
            ),
{
}

/// At 4 bits per pixel, pixel data of `count` bytes gives exactly
/// `2 * count` pixels, all of them palette indices: each byte gives its high
/// nibble and then its low nibble.
pub proof fn lemma_palette_two_per_byte(
    data: Seq<u8>,
    result: Result<Bitmap, BitmapError>,
    count: nat,
)
    requires
        decodes_to(data, result),
        decodable(data),
        depth(data) == 4,
        pixel_data_size(data) == count,
    ensures
        result matches Ok(bitmap) && bitmap.pixels@.len() == 2 * count && forall|i: int|
            0 <= i < count ==> {
                &&& bitmap.pixels@[2 * i] == Pixel::PaletteColor(
                    high_nibble(#[trigger] pixel_byte(data, i)),
                )
                &&& bitmap.pixels@[2 * i + 1] == Pixel::PaletteColor(
                    low_nibble(pixel_byte(data, i)),
                )
            },
{
}

/// Decoding is a function of the buffer: two outcomes for one buffer are
/// either two bitmaps of equal value or twice the same error.
pub proof fn lemma_decoding_is_deterministic(
    data: Seq<u8>,
    first: Result<Bitmap, BitmapError>,
    second: Result<Bitmap, BitmapError>,
)
    requires
        decodes_to(data, first),
        decodes_to(data, second),
    ensures
        match (first, second) {
            (Ok(a), Ok(b)) => a@ == b@,
            (Err(a), Err(b)) => a == b,
            _ => false,
        },
{
}

} // verus!
