//! The fixed layout at the start of a bitmap file, and its parser.
//!
//! | bytes     | field                                   |
//! |-----------|-----------------------------------------|
//! | `0..2`    | the signature `BM`                      |
//! | `2..6`    | declared size of the file, unsigned     |
//! | `10..14`  | offset of the pixel data, unsigned      |
//! | `14..18`  | declared size of the header, unsigned   |
//! | `18..22`  | width in pixels, signed                 |
//! | `22..26`  | height in pixels, signed                |
//! | `28..30`  | bits per pixel, unsigned                |
//! | `30..34`  | compression method code, unsigned       |
//! | `34..38`  | length of the pixel data, unsigned      |
//! | `46..50`  | number of palette colours, unsigned     |
//!
//! Every field of more than one byte is stored least significant byte first.

use vstd::prelude::*;
use crate::error::BitmapError;
use crate::le::{le_i32, le_u16, le_u32, read_i32, read_u16, read_u32};

verus! {

/// The number of bytes that the parsed fields span from the start of a file.
pub const HEADER_LEN: usize = 50;

/// How the pixel data is compressed.  The method is reported, never undone.
#[derive(Debug, Clone, Copy, PartialEq, Eq, Structural)]
pub enum CompressionMethod {
    /// The pixel data is stored as it is.
    Uncompressed,
    Rle8Bit,
    Rle4Bit,
    Huffman1D,
    Jpeg,
    Png,
    /// A code that stands for no known method.
    Other(u32),
}

impl CompressionMethod {
    /// The method that a compression code stands for.
    pub open spec fn of_code(code: int) -> CompressionMethod {
        if code == 0 {
            CompressionMethod::Uncompressed
        } else if code == 1 {
            CompressionMethod::Rle8Bit
        } else if code == 2 {
            CompressionMethod::Rle4Bit
        } else if code == 3 {
            CompressionMethod::Huffman1D
        } else if code == 4 {
            CompressionMethod::Jpeg
        } else if code == 5 {
            CompressionMethod::Png
        } else {
            CompressionMethod::Other(code as u32)
        }
    }

    /// Classifies a compression code.
    pub fn from_code(code: u32) -> (method: CompressionMethod)
        ensures
            method == CompressionMethod::of_code(code as int),
    {
        match code {
            0 => CompressionMethod::Uncompressed,
            1 => CompressionMethod::Rle8Bit,
            2 => CompressionMethod::Rle4Bit,
            3 => CompressionMethod::Huffman1D,
            4 => CompressionMethod::Jpeg,
            5 => CompressionMethod::Png,
            n => CompressionMethod::Other(n),
        }
    }
}

/// The part of the information header that the decoder reports.
#[derive(Debug, Clone, Copy, PartialEq, Eq, Structural)]
pub struct BitmapV5Header {
    /// Size of the header structure as the file declares it.
    pub size: u32,
    /// Width in pixels.
    pub pix_width: i32,
    /// Height in pixels.  The sign tells the order of the rows and is not
    /// interpreted here.
    pub pix_height: i32,
    /// Bits per pixel.
    pub bpp: u16,
    /// Compression method.
    pub method: CompressionMethod,
    /// Number of colours in the palette.
    pub colors: u32,
}

/// Everything that is read from the start of a file.
#[derive(Debug, Clone, Copy, PartialEq, Eq, Structural)]
pub struct FileHeader {
    /// Size of the whole file as the file declares it.
    pub size: u32,
    /// Position of the first byte of pixel data.
    pub offset: u32,
    /// Length of the pixel data in bytes.
    pub data_size: u32,
    /// The information header.
    pub header: BitmapV5Header,
}

/// Whether the buffer starts with the two bytes `BM`.
pub open spec fn has_signature(data: Seq<u8>) -> bool {
    data.len() >= 2 && data[0] == 0x42 && data[1] == 0x4D
}

/// Whether the buffer starts with the signature and is long enough to hold
/// every header field.
pub open spec fn has_header(data: Seq<u8>) -> bool {
    has_signature(data) && data.len() >= HEADER_LEN
}

/// The size of the file as the buffer declares it.
pub open spec fn declared_size(data: Seq<u8>) -> int {
    le_u32(data, 2)
}

/// The position at which the buffer says its pixel data begins.
pub open spec fn pixel_offset(data: Seq<u8>) -> int {
    le_u32(data, 10)
}

/// The size of the header structure as the buffer declares it.
pub open spec fn header_size(data: Seq<u8>) -> int {
    le_u32(data, 14)
}

/// The width in pixels that the buffer announces.
pub open spec fn width(data: Seq<u8>) -> int {
    le_i32(data, 18)
}

/// The height in pixels that the buffer announces.
pub open spec fn height(data: Seq<u8>) -> int {
    le_i32(data, 22)
}

/// The number of bits per pixel that the buffer announces.
pub open spec fn depth(data: Seq<u8>) -> int {
    le_u16(data, 28)
}

/// The code of the compression method that the buffer announces.
pub open spec fn method_code(data: Seq<u8>) -> int {
    le_u32(data, 30)
}

/// The length that the buffer gives for its pixel data.
pub open spec fn pixel_data_size(data: Seq<u8>) -> int {
    le_u32(data, 34)
}

/// The number of palette colours that the buffer announces.
pub open spec fn color_count(data: Seq<u8>) -> int {
    le_u32(data, 46)
}

/// The position just behind the pixel data: its offset plus its length.
pub open spec fn pixel_end(data: Seq<u8>) -> int {
    pixel_offset(data) + pixel_data_size(data)
}

impl BitmapV5Header {
    /// Whether this header holds the values of the fields of `data`.
    pub open spec fn describes(self, data: Seq<u8>) -> bool {
        &&& self.size == header_size(data)
        &&& self.pix_width == width(data)
        &&& self.pix_height == height(data)
        &&& self.bpp == depth(data)
        &&& self.method == CompressionMethod::of_code(method_code(data))
        &&& self.colors == color_count(data)
    }
}

impl FileHeader {
    /// Whether this header holds the values of the fields of `data`.
    pub open spec fn describes(self, data: Seq<u8>) -> bool {
        &&& self.size == declared_size(data)
        &&& self.offset == pixel_offset(data)
        &&& self.data_size == pixel_data_size(data)
        &&& self.header.describes(data)
    }

    /// Reads every field from its place, or nothing when the buffer ends
    /// before the last of them.  The signature is not looked at.
    pub fn read(data: &[u8]) -> (fields: Option<FileHeader>)
        ensures
            fields is Some <==> data@.len() >= HEADER_LEN,
            fields matches Some(header) ==> header.describes(data@),
    {
        let size: u32 = read_u32(data, 2)?;
        let offset: u32 = read_u32(data, 10)?;
        let header_size: u32 = read_u32(data, 14)?;
        let pix_width: i32 = read_i32(data, 18)?;
        let pix_height: i32 = read_i32(data, 22)?;
        let bpp: u16 = read_u16(data, 28)?;
        let code: u32 = read_u32(data, 30)?;
        let data_size: u32 = read_u32(data, 34)?;
        let colors: u32 = read_u32(data, 46)?;
        Some(
            FileHeader {
                size,
                offset,
                data_size,
                header: BitmapV5Header {
                    size: header_size,
                    pix_width,
                    pix_height,
                    bpp,
                    method: CompressionMethod::from_code(code),
                    colors,
                },
            },
        )
    }

    /// The position just behind the pixel data.
    pub fn end(&self) -> (end: u64)
        ensures
            end == self.offset + self.data_size,
    {
        self.offset as u64 + self.data_size as u64
    }
}

/// Tells whether the buffer starts with the two bytes `BM`.
pub fn starts_with_signature(data: &[u8]) -> (found: bool)
    ensures
        found == has_signature(data@),
{
    data.len() >= 2 && data[0] == 0x42 && data[1] == 0x4D
}

/// Checks the signature and reads the header fields.
///
/// Fails with [`BitmapError::InvalidBitmapData`] exactly when the signature
/// is missing or the buffer is shorter than [`HEADER_LEN`] bytes.  The values
/// of the fields are taken as they are: none of them is checked here.
pub fn parse_header(data: &[u8]) -> (result: Result<FileHeader, BitmapError>)
    ensures
        match result {
            Ok(header) => has_header(data@) && header.describes(data@),
            Err(error) => !has_header(data@) && error == BitmapError::InvalidBitmapData,
        },
{
    if !starts_with_signature(data) {
        return Err(BitmapError::InvalidBitmapData);
    }
    match FileHeader::read(data) {
        Some(header) => Ok(header),
        None => Err(BitmapError::InvalidBitmapData),
    }
}

} // verus!
