//! Pixel formats as the pipeline identifies them.
use vstd::prelude::*;

verus! {

/// A pixel format: a four-character code and a format modifier.
#[derive(Clone, Copy, Debug, PartialEq, Eq, Structural)]
pub struct PixelFormat {
    pub fourcc: u32,
    pub modifier: u64,
}

} // verus!
