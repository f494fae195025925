//! A small decoder for the pixel data of Windows bitmap files.
//!
//! The decoder takes the complete contents of a file as a byte buffer and
//! produces a [`Bitmap`]: the validated header fields together with the
//! decoded pixel sequence.  Every function is total and its result is fixed
//! by a mathematical description of the file layout.

pub mod bitmap;
pub mod error;
pub mod header;
pub mod laws;
pub mod le;
pub mod pixel;

pub use crate::bitmap::Bitmap;
pub use crate::error::{BitmapError, BitmapResult};
pub use crate::header::{BitmapV5Header, CompressionMethod};
pub use crate::pixel::Pixel;
