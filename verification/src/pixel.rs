//! Channel layouts and single pixels.

use vstd::prelude::*;

verus! {

/// How many 8-bit channels a pixel of a grid stores.
#[derive(Clone, Copy, Debug, PartialEq, Eq, Structural)]
pub enum Layout {
    /// One channel: luminance.
    Luma,
    /// Two channels: luminance, then alpha.
    LumaAlpha,
}

impl Layout {
    /// Number of samples that one pixel occupies.
    pub open spec fn channel_count(self) -> nat {
        match self {
            Layout::Luma => 1,
            Layout::LumaAlpha => 2,
        }
    }

    /// Whether pixels of this layout store an alpha channel.
    pub open spec fn spec_has_alpha(self) -> bool {
        self == Layout::LumaAlpha
    }

    /// Number of samples that one pixel occupies.
    pub fn channels(self) -> (n: usize)
        ensures
            n == self.channel_count(),
    {
        match self {
            Layout::Luma => 1,
            Layout::LumaAlpha => 2,
        }
    }

    /// Whether pixels of this layout store an alpha channel.
    #[verifier::when_used_as_spec(spec_has_alpha)]
    pub fn has_alpha(self) -> (b: bool)
        ensures
            b == self.spec_has_alpha(),
    {
        match self {
            Layout::Luma => false,
            Layout::LumaAlpha => true,
        }
    }
}

/// One pixel: a luminance and an alpha value, each 0 to 255.
///
/// A pixel read from a grid without an alpha channel is fully opaque
/// (alpha 255).
#[derive(Clone, Copy, Debug, PartialEq, Eq, Structural)]
pub struct Pixel {
    pub luminance: u8,
    pub alpha: u8,
}

} // verus!
