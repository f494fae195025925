//! The ways in which obtaining or decoding a bitmap can fail.

use vstd::prelude::*;
use vstd::std_specs::convert::FromSpecImpl;

verus! {

/// `std::io::Error`, declared so that a value of it can be carried inside
/// [`BitmapError`].  Nothing is claimed about what such a value holds: to
/// the verifier it is opaque.
#[verifier::external_type_specification]
#[verifier::external_body]
pub struct ExIoError(std::io::Error);

/// Why no bitmap could be produced.
#[derive(Debug)]
pub enum BitmapError {
    /// The buffer does not start with the signature `BM`, or it ends before
    /// a field or the pixel data that its header announces.
    InvalidBitmapData,
    /// The header asks for a pixel depth other than 4, 24 or 32 bits.
    UnsupportedBitsPerPixel,
    /// The source of the bytes failed.  The decoder never produces this
    /// variant itself; it exists so that callers which read the buffer from
    /// a file can report both kinds of failure through one type.
    BitmapIOError(std::io::Error),
}

/// The result of an operation that may fail with a [`BitmapError`].
pub type BitmapResult<T> = Result<T, BitmapError>;

impl From<std::io::Error> for BitmapError {
    /// Wraps an I/O error without altering it.
    fn from(err: std::io::Error) -> (error: BitmapError) {
        BitmapError::BitmapIOError(err)
    }
}

impl FromSpecImpl<std::io::Error> for BitmapError {
    open spec fn obeys_from_spec() -> bool {
        true
    }

    open spec fn from_spec(err: std::io::Error) -> BitmapError {
        BitmapError::BitmapIOError(err)
    }
}

} // verus!
