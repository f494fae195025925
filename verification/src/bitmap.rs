//! The decoded bitmap and the decoder proper.

use vstd::prelude::*;
use vstd::slice::slice_subrange;
use crate::error::BitmapError;
use crate::header::{
    declared_size, depth, has_header, parse_header, pixel_end, pixel_offset, BitmapV5Header,
    FileHeader,
};
use crate::pixel::{decode_pixels, depth_is_supported, pixels_of, supported_depth, Pixel};

verus! {

/// A decoded bitmap: the buffer it was made from, the header fields and the
/// pixels.
#[derive(Debug, PartialEq, Eq)]
pub struct Bitmap {
    /// The complete buffer that was decoded.
    pub data: Vec<u8>,
    /// Size of the whole file as the file declares it.
    pub size: u32,
    /// Position in `data` of the first byte of pixel data.
    pub offset: u32,
    /// The information header.
    pub header: BitmapV5Header,
    /// The pixels, in the order of the bytes that they were decoded from.
    pub pixels: Vec<Pixel>,
}

/// The mathematical value of a [`Bitmap`].
pub struct BitmapView {
    pub data: Seq<u8>,
    pub size: u32,
    pub offset: u32,
    pub header: BitmapV5Header,
    pub pixels: Seq<Pixel>,
}

impl View for Bitmap {
    type V = BitmapView;

    open spec fn view(&self) -> BitmapView {
        BitmapView {
            data: self.data@,
            size: self.size,
            offset: self.offset,
            header: self.header,
            pixels: self.pixels@,
        }
    }
}

impl Clone for Bitmap {
    /// Copies the bitmap together with its buffer and its pixels.
    fn clone(&self) -> (copy: Bitmap)
        ensures
            copy@ == self@,
    {
        Bitmap {
            data: self.data.clone(),
            size: self.size,
            offset: self.offset,
            header: self.header,
            pixels: self.pixels.clone(),
        }
    }
}

/// The bytes of the buffer that hold its pixel data.
pub open spec fn pixel_region(data: Seq<u8>) -> Seq<u8> {
    data.subrange(pixel_offset(data), pixel_end(data))
}

/// The `index`-th byte of the pixel data of the buffer.
pub open spec fn pixel_byte(data: Seq<u8>, index: int) -> u8 {
    data[pixel_offset(data) + index]
}

/// Whether a buffer can be decoded: it has a header, the header announces a
/// supported pixel depth, and the pixel data that it announces lies inside
/// the buffer.
pub open spec fn decodable(data: Seq<u8>) -> bool {
    &&& has_header(data)
    &&& supported_depth(depth(data))
    &&& pixel_end(data) <= data.len()
}

/// The error that a buffer which is not decodable is refused with.
///
/// A buffer that has a header with an unsupported depth is refused for its
/// depth, wherever its pixel data would lie.  Every other failure is one of
/// missing bytes or a missing signature.
pub open spec fn rejection(data: Seq<u8>) -> BitmapError {
    if has_header(data) && !supported_depth(depth(data)) {
        BitmapError::UnsupportedBitsPerPixel
    } else {
        BitmapError::InvalidBitmapData
    }
}

/// Whether `result` is the outcome of decoding `data`: for a decodable
/// buffer the bitmap that keeps it and is well formed, for any other buffer
/// the error that it is refused with.
pub open spec fn decodes_to(data: Seq<u8>, result: Result<Bitmap, BitmapError>) -> bool {
    match result {
        Ok(bitmap) => decodable(data) && bitmap@.data == data && bitmap.wf(),
        Err(error) => !decodable(data) && error == rejection(data),
    }
}

impl BitmapView {
    /// Whether the buffer is decodable and the fields and the pixels are
    /// those that the buffer holds.
    pub open spec fn wf(self) -> bool {
        &&& decodable(self.data)
        &&& self.size == declared_size(self.data)
        &&& self.offset == pixel_offset(self.data)
        &&& self.header.describes(self.data)
        &&& self.pixels == pixels_of(pixel_region(self.data), depth(self.data))
    }
}

impl Bitmap {
    /// Whether this bitmap is what decoding its own buffer gives.  Every
    /// bitmap that [`Bitmap::new`] returns is well formed.
    pub open spec fn wf(&self) -> bool {
        self@.wf()
    }

    /// Decodes the complete contents of a bitmap file.
    ///
    /// The buffer is refused with [`BitmapError::InvalidBitmapData`] when it
    /// lacks the signature or ends before its header does, then with
    /// [`BitmapError::UnsupportedBitsPerPixel`] when its depth is not 4, 24
    /// or 32, then with [`BitmapError::InvalidBitmapData`] when it ends
    /// before its pixel data does.  Otherwise the bitmap is returned, and it
    /// keeps the buffer.
    pub fn new(data: Vec<u8>) -> (result: Result<Bitmap, BitmapError>)
        ensures
            decodes_to(data@, result),
    {
        let fields: FileHeader = parse_header(data.as_slice())?;
        if !depth_is_supported(fields.header.bpp) {
            return Err(BitmapError::UnsupportedBitsPerPixel);
        }
        let end: u64 = fields.end();
        if end > data.len() as u64 {
            return Err(BitmapError::InvalidBitmapData);
        }
        let region: &[u8] = slice_subrange(data.as_slice(), fields.offset as usize, end as usize);
        let pixels: Vec<Pixel> = decode_pixels(region, fields.header.bpp)?;
        Ok(Bitmap { data, size: fields.size, offset: fields.offset, header: fields.header, pixels })
    }
}

} // verus!
