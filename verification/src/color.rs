//! Packed 16-bit colors: four 4-bit channels, R|G|B|A from the high nibble
//! down. Alpha 0 means fully transparent; alpha 15 fully opaque.

use vstd::prelude::*;

verus! {

/// The packed color for 4-bit channels `r`, `g`, `b`, `a`: an alpha above 7
/// rounds up to fully opaque, anything else collapses to the zero
/// (transparent) color.
pub open spec fn spec_rgba_to_u16(r: u8, g: u8, b: u8, a: u8) -> u16
    recommends
        r <= 15,
        g <= 15,
        b <= 15,
{
    if a > 7 {
        (r * 4096 + g * 256 + b * 16 + 15) as u16
    } else {
        0u16
    }
}

/// The red channel (high nibble) of a packed color.
pub open spec fn spec_red(c: u16) -> u8 {
    (c / 4096) as u8
}

/// The green channel of a packed color.
pub open spec fn spec_green(c: u16) -> u8 {
    ((c / 256) % 16) as u8
}

/// The blue channel of a packed color.
pub open spec fn spec_blue(c: u16) -> u8 {
    ((c / 16) % 16) as u8
}

/// The alpha channel (low nibble) of a packed color.
pub open spec fn spec_alpha(c: u16) -> u8 {
    (c % 16) as u8
}

/// Packs four 4-bit channels into one 16-bit color. An alpha of 7 or less
/// makes the whole color the zero (transparent) color; otherwise alpha is
/// forced to 15, so every stored color is either fully transparent or fully
/// opaque.
pub fn rgba_to_u16(rgba: [u8; 4]) -> (c: u16)
    requires
        rgba[0] <= 15,
        rgba[1] <= 15,
        rgba[2] <= 15,
        rgba[3] <= 15,
    ensures
        c == spec_rgba_to_u16(rgba[0], rgba[1], rgba[2], rgba[3]),
{
    if rgba[3] > 7 {
        let r: u16 = rgba[0] as u16;
        let g: u16 = rgba[1] as u16;
        let b: u16 = rgba[2] as u16;
        assert((r << 12) | (g << 8) | (b << 4) | 15 == r * 4096 + g * 256 + b * 16 + 15)
            by (bit_vector)
            requires
                r <= 15 && g <= 15 && b <= 15,
        ;
        (r << 12) | (g << 8) | (b << 4) | 15
    } else {
        0
    }
}

/// Splits a packed 16-bit color back into its four 4-bit channels,
/// high nibble first.
pub fn u16_to_rgba(color: u16) -> (rgba: [u8; 4])
    ensures
        rgba[0] == spec_red(color),
        rgba[1] == spec_green(color),
        rgba[2] == spec_blue(color),
        rgba[3] == spec_alpha(color),
        rgba[0] <= 15 && rgba[1] <= 15 && rgba[2] <= 15 && rgba[3] <= 15,
{
    assert((color & 0xf000) >> 12 == color / 4096 && (color & 0x0f00) >> 8 == (color / 256) % 16
        && (color & 0x00f0) >> 4 == (color / 16) % 16 && (color & 0x000f) == color % 16
        && color / 4096 <= 15 && (color / 256) % 16 <= 15 && (color / 16) % 16 <= 15 && color % 16
        <= 15) by (bit_vector);
    [
        ((color & 0xf000) >> 12) as u8,
        ((color & 0x0f00) >> 8) as u8,
        ((color & 0x00f0) >> 4) as u8,
        (color & 0x000f) as u8,
    ]
}

/// Widens a 4-bit channel to 8 bits so that the levels spread evenly over the
/// full byte: the step is 255/15 = 17, so level 15 lands exactly on 255.
pub fn expand_channel(c: u8) -> (w: u8)
    requires
        c <= 15,
    ensures
        w == c * 17,
{
    c * 17
}

/// Packing then unpacking an opaque color recovers each channel, with alpha
/// forced to 15.
pub proof fn lemma_color_round_trip(r: u8, g: u8, b: u8, a: u8)
    requires
        r <= 15,
        g <= 15,
        b <= 15,
        a > 7,
    ensures
        spec_red(spec_rgba_to_u16(r, g, b, a)) == r,
        spec_green(spec_rgba_to_u16(r, g, b, a)) == g,
        spec_blue(spec_rgba_to_u16(r, g, b, a)) == b,
        spec_alpha(spec_rgba_to_u16(r, g, b, a)) == 15,
{
    let c = spec_rgba_to_u16(r, g, b, a);
    assert(c == r * 4096 + g * 256 + b * 16 + 15);
    assert(c / 4096 == r && (c / 256) % 16 == g && (c / 16) % 16 == b && c % 16 == 15)
        by (nonlinear_arith)
        requires
            r <= 15 && g <= 15 && b <= 15 && c == r * 4096 + g * 256 + b * 16 + 15,
    ;
}

} // verus!
