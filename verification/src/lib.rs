//! Binary PNM images as grids of widened integer pixels.
//!
//! Grayscale and colour images are decoded from the bytes of a portable
//! anymap and encoded as the bytes of a binary portable pixmap. Pixels hold
//! `u16` channels; on encoding every channel is saturated to one byte.

pub mod error;
pub mod image;
pub mod imgtype;
pub mod lemmas;
pub mod pixel;
pub mod pnm;
pub mod sudoku;

pub use crate::error::{DecodeError, EncodeError};
pub use crate::image::{GrayImage, Read, RgbImage, Write};
pub use crate::imgtype::{Gray, ImageType, Rgb};
pub use crate::pixel::Pixel;
pub use crate::sudoku::RowColCheck;
