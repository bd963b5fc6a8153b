use vstd::prelude::*;

verus! {

/// A stored pixel: one byte per channel, in RGBA order.
#[derive(Clone, Copy, Debug, PartialEq, Eq, Structural)]
pub struct Rgba {
    pub r: u8,
    pub g: u8,
    pub b: u8,
    pub a: u8,
}

/// The colour a packed wire value `0xRRGGBBAA` stands for: each channel is
/// one byte of the value, most significant first.
pub open spec fn rgba_of(packed: u32) -> Rgba {
    Rgba {
        r: ((packed >> 24u32) & 0xffu32) as u8,
        g: ((packed >> 16u32) & 0xffu32) as u8,
        b: ((packed >> 8u32) & 0xffu32) as u8,
        a: (packed & 0xffu32) as u8,
    }
}

/// Converts a packed wire colour into the stored form. Every value converts:
/// each channel is a byte of the input, so nothing is out of range.
pub fn to_internal_color(packed: u32) -> (c: Rgba)
    ensures
        c == rgba_of(packed),
{
    Rgba {
        r: ((packed >> 24u32) & 0xffu32) as u8,
        g: ((packed >> 16u32) & 0xffu32) as u8,
        b: ((packed >> 8u32) & 0xffu32) as u8,
        a: (packed & 0xffu32) as u8,
    }
}

} // verus!
