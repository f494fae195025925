//! Pixels and the decoding of a pixel-data region into a pixel sequence.
//!
//! A region is a flat run of bytes.  Rows, their padding and their order are
//! not interpreted: the pixels come out in the order of the bytes.

use vstd::prelude::*;
use crate::error::BitmapError;

verus! {

/// One decoded sample.
#[derive(Debug, Clone, Copy, PartialEq, Eq, Structural)]
pub enum Pixel {
    /// Four channel bytes in the order in which they stand in the file.
    ABGR(u8, u8, u8, u8),
    /// Three channel bytes.  No decoding path produces this variant yet.
    BGR(u8, u8, u8),
    /// An index into the colour table.
    PaletteColor(u8),
}

/// The upper four bits of a byte, as a number below 16.
pub open spec fn high_nibble(byte: u8) -> u8 {
    byte / 16
}

/// The lower four bits of a byte, as a number below 16.
pub open spec fn low_nibble(byte: u8) -> u8 {
    byte % 16
}

/// The pixel that the `index`-th group of four bytes of `region` stands for.
pub open spec fn abgr_at(region: Seq<u8>, index: int) -> Pixel {
    Pixel::ABGR(
        region[4 * index],
        region[4 * index + 1],
        region[4 * index + 2],
        region[4 * index + 3],
    )
}

/// The pixel that the `index`-th nibble of `region` stands for, the high
/// nibble of each byte coming before its low nibble.
pub open spec fn palette_at(region: Seq<u8>, index: int) -> Pixel {
    if index % 2 == 0 {
        Pixel::PaletteColor(high_nibble(region[index / 2]))
    } else {
        Pixel::PaletteColor(low_nibble(region[index / 2]))
    }
}

/// The pixels of a region read as groups of four bytes.  Bytes after the last
/// complete group stand for nothing.
pub open spec fn abgr_pixels(region: Seq<u8>) -> Seq<Pixel> {
    Seq::new(region.len() / 4, |index: int| abgr_at(region, index))
}

/// The pixels of a region read as palette indices, two to each byte.
pub open spec fn palette_pixels(region: Seq<u8>) -> Seq<Pixel> {
    Seq::new(2 * region.len(), |index: int| palette_at(region, index))
}

/// The pixel depths that can be decoded.
pub open spec fn supported_depth(bpp: int) -> bool {
    bpp == 4 || bpp == 24 || bpp == 32
}

/// The pixels of a region at a supported depth.  Depths 24 and 32 are read
/// alike, as groups of four bytes.
pub open spec fn pixels_of(region: Seq<u8>, bpp: int) -> Seq<Pixel> {
    if bpp == 4 {
        palette_pixels(region)
    } else {
        abgr_pixels(region)
    }
}

/// Tells whether pixels of the given depth can be decoded.
pub fn depth_is_supported(bpp: u16) -> (supported: bool)
    ensures
        supported == supported_depth(bpp as int),
{
    bpp == 4 || bpp == 24 || bpp == 32
}

/// Splits a byte into its high and its low nibble.
pub fn nibbles(byte: u8) -> (pair: (u8, u8))
    ensures
        pair.0 == high_nibble(byte),
        pair.1 == low_nibble(byte),
{
    assert((byte & 0xF0) >> 4 == byte / 16) by (bit_vector);
    assert(byte & 0xF == byte % 16) by (bit_vector);
    ((byte & 0xF0) >> 4, byte & 0xF)
}

/// Decodes a region as groups of four bytes, one pixel to each complete
/// group.
pub fn decode_abgr(region: &[u8]) -> (pixels: Vec<Pixel>)
    ensures
        pixels@ == abgr_pixels(region@),
{
    let count: usize = region.len() / 4;
    let mut pixels: Vec<Pixel> = Vec::new();
    let mut index: usize = 0;
    while index < count
        invariant
            count == region@.len() / 4,
            4 * count <= usize::MAX,
            index <= count,
            pixels@.len() == index,
            forall|i: int| 0 <= i < index ==> pixels@[i] == abgr_at(region@, i),
        decreases count - index,
    {
        let at: usize = 4 * index;
        pixels.push(Pixel::ABGR(region[at], region[at + 1], region[at + 2], region[at + 3]));
        index = index + 1;
    }
    pixels
}

/// Decodes a region as palette indices, two pixels to each byte.
pub fn decode_palette(region: &[u8]) -> (pixels: Vec<Pixel>)
    ensures
        pixels@ == palette_pixels(region@),
{
    let mut pixels: Vec<Pixel> = Vec::new();
    let mut index: usize = 0;
    while index < region.len()
        invariant
            index <= region@.len(),
            pixels@.len() == 2 * index,
            forall|i: int| 0 <= i < 2 * index ==> pixels@[i] == palette_at(region@, i),
        decreases region@.len() - index,
    {
        let (high, low) = nibbles(region[index]);
        pixels.push(Pixel::PaletteColor(high));
        pixels.push(Pixel::PaletteColor(low));
        index = index + 1;
    }
    pixels
}

/// Decodes a region at the given pixel depth.
///
/// Succeeds exactly for the depths 4, 24 and 32; for any other depth nothing
/// is decoded.
pub fn decode_pixels(region: &[u8], bpp: u16) -> (result: Result<Vec<Pixel>, BitmapError>)
    ensures
        match result {
            Ok(pixels) => supported_depth(bpp as int) && pixels@ == pixels_of(region@, bpp as int),
            Err(error) => !supported_depth(bpp as int) && error
                == BitmapError::UnsupportedBitsPerPixel,
        },
{
    match bpp {
        24 | 32 => Ok(decode_abgr(region)),
        4 => Ok(decode_palette(region)),
        _ => Err(BitmapError::UnsupportedBitsPerPixel),
    }
}

} // verus!
