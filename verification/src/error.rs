//! Why decoding or encoding an image fails.

use vstd::prelude::*;

verus! {

/// Why an image could not be decoded.
#[derive(Clone, Copy, Debug, PartialEq, Eq)]
pub enum DecodeError {
    /// The header or the samples cannot be read as a portable anymap.
    Parse,
    /// The samples are laid out in a way that the requested kind of image
    /// cannot be made from.
    FormatMismatch,
}

/// Why an image could not be encoded.
#[derive(Clone, Copy, Debug, PartialEq, Eq)]
pub enum EncodeError {
    /// The number of pixels is not the product of width and height.
    BufferSize,
}

} // verus!
