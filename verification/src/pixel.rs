use vstd::prelude::*;

verus! {

/// The ARGB value of an opaque pixel with the given colour channels:
/// alpha `0xff` in the top byte, then red, green and blue.
pub open spec fn argb_value(r: u8, g: u8, b: u8) -> int {
    0xff00_0000 + r * 0x1_0000 + g * 0x100 + b
}

/// Packs three colour channels into one opaque `0xAARRGGBB` pixel.
pub fn pack_argb(r: u8, g: u8, b: u8) -> (pixel: u32)
    ensures
        pixel == argb_value(r, g, b),
{
    let (r32, g32, b32): (u32, u32, u32) = (r as u32, g as u32, b as u32);
    let pixel: u32 = 0xffu32 << 24u32 | r32 << 16u32 | g32 << 8u32 | b32;
    assert(pixel == 0xff00_0000 + r32 * 0x1_0000 + g32 * 0x100 + b32) by (bit_vector)
        requires
            r32 < 256,
            g32 < 256,
            b32 < 256,
            pixel == (0xffu32 << 24u32 | r32 << 16u32 | g32 << 8u32 | b32),
    ;
    pixel
}

/// A packed pixel is opaque, and each colour channel reads back from its
/// byte.
pub proof fn law_argb_channels(pixel: u32, r: u8, g: u8, b: u8)
    requires
        pixel == argb_value(r, g, b),
    ensures
        pixel >> 24u32 == 0xff,
        (pixel >> 16u32) & 0xff == r,
        (pixel >> 8u32) & 0xff == g,
        pixel & 0xff == b,
{
    let (r32, g32, b32): (u32, u32, u32) = (r as u32, g as u32, b as u32);
    assert(pixel >> 24u32 == 0xff && (pixel >> 16u32) & 0xff == r32 && (pixel >> 8u32) & 0xff
        == g32 && pixel & 0xff == b32) by (bit_vector)
        requires
            r32 < 256,
            g32 < 256,
            b32 < 256,
            pixel == 0xff00_0000 + r32 * 0x1_0000 + g32 * 0x100 + b32,
    ;
}

} // verus!
