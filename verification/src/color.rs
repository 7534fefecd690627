//! Colours, and the 24-bit number that stands for one in a placeholder.

use vstd::prelude::*;

verus! {

/// An opaque colour of eight bits per channel.
#[derive(Clone, Copy, Debug, PartialEq, Eq, Structural)]
pub struct Color {
    pub r: u8,
    pub g: u8,
    pub b: u8,
}

/// The brand accent. It is used wherever a poster yields no accent of its own.
pub open spec fn brand_accent() -> Color {
    Color { r: 241, g: 143, b: 243 }
}

/// The colour of titles and labels.
pub open spec fn white() -> Color {
    Color { r: 255, g: 255, b: 255 }
}

impl Color {
    /// The brand accent.
    pub fn accent() -> (c: Color)
        ensures
            c == brand_accent(),
    {
        Color { r: 241, g: 143, b: 243 }
    }

    /// White.
    pub fn white() -> (c: Color)
        ensures
            c == white(),
    {
        Color { r: 255, g: 255, b: 255 }
    }
}

/// The 24-bit number `0xRRGGBB` that stands for a colour.
pub open spec fn packed(c: Color) -> nat {
    (c.r as nat) * 65536 + (c.g as nat) * 256 + (c.b as nat)
}

/// The colour that the low 24 bits of `n` stand for. Higher bits are dropped.
pub open spec fn unpacked(n: nat) -> Color {
    Color { r: ((n / 65536) % 256) as u8, g: ((n / 256) % 256) as u8, b: (n % 256) as u8 }
}

/// Packs a colour into `0xRRGGBB`.
pub fn pack_color(c: Color) -> (n: u32)
    ensures
        n == packed(c),
        n < 0x100_0000,
{
    let r: u32 = c.r as u32;
    let g: u32 = c.g as u32;
    let b: u32 = c.b as u32;
    r * 65536 + g * 256 + b
}

/// Takes the colour out of the low 24 bits of `n`.
pub fn unpack_color(n: u32) -> (c: Color)
    ensures
        c == unpacked(n as nat),
{
    Color { r: ((n / 65536) % 256) as u8, g: ((n / 256) % 256) as u8, b: (n % 256) as u8 }
}

/// Packing a colour and unpacking the number gives the colour back.
pub proof fn lemma_unpack_pack(c: Color)
    ensures
        unpacked(packed(c)) == c,
        packed(c) < 0x100_0000,
{
}

} // verus!
