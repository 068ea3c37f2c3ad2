//! A pixel of either kind.

use vstd::prelude::*;
pub use crate::imgtype::{Gray, Rgb};

verus! {

/// A `Pixel` is an enum over `Gray` and `Rgb` valued pixels.
#[derive(Clone, Copy, Debug, PartialEq, Eq)]
pub enum Pixel {
    Gray(Gray),
    Rgb(Rgb),
}

} // verus!
