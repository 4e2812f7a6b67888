//! Foreground sprites: an image id, a packed transform byte, and a signed
//! pixel position. The transform byte is laid out as
//! padding (2 bits) | flip-X (1 bit) | flip-Y (1 bit) | palette id (4 bits).

use vstd::prelude::*;

verus! {

/// An element of the foreground layer. Slots hold plain values; a slot left
/// at its default draws nothing visible when its image is empty.
#[derive(Copy, Clone)]
pub struct Sprite {
    /// The image id. Every bit is needed: there are 256 images at most.
    pub image_id: u8,
    /// padding (2 bits) | flip-X (1 bit) | flip-Y (1 bit) | palette id (4 bits)
    pub palette_transform: u8,
    pub x: i16,
    pub y: i16,
}

/// The 4-bit palette id carried by a transform byte.
pub open spec fn spec_palette_id(t: u8) -> u8 {
    t & 0x0fu8
}

/// The flip-X bit of a transform byte.
pub open spec fn spec_flip_x(t: u8) -> bool {
    t & 0x20u8 != 0
}

/// The flip-Y bit of a transform byte.
pub open spec fn spec_flip_y(t: u8) -> bool {
    t & 0x10u8 != 0
}

impl Sprite {
    pub const FLIP_X_MASK: u8 = 0b0010_0000;

    pub const FLIP_Y_MASK: u8 = 0b0001_0000;

    pub const PALETTE_MASK: u8 = 0b1111;

    pub fn get_palette_id(&self) -> (id: u8)
        ensures
            id == spec_palette_id(self.palette_transform),
            id <= 15,
    {
        let t = self.palette_transform;
        assert(t & 0x0fu8 <= 15) by (bit_vector);
        t & Self::PALETTE_MASK
    }

    pub fn get_flip_x(&self) -> (f: bool)
        ensures
            f == spec_flip_x(self.palette_transform),
    {
        self.palette_transform & Self::FLIP_X_MASK != 0
    }

    pub fn get_flip_y(&self) -> (f: bool)
        ensures
            f == spec_flip_y(self.palette_transform),
    {
        self.palette_transform & Self::FLIP_Y_MASK != 0
    }

    /// Sets or clears the flip-X bit, leaving every other bit of the
    /// transform byte — the flip-Y bit, the palette id and the reserved
    /// padding bits — and every other field unchanged, so a repeated set is
    /// a no-op.
    pub fn set_flip_x(&mut self, flip: bool)
        ensures
            final(self).palette_transform == (if flip {
                old(self).palette_transform | 0x20u8
            } else {
                old(self).palette_transform & !0x20u8
            }),
            spec_flip_x(final(self).palette_transform) == flip,
            spec_flip_y(final(self).palette_transform) == spec_flip_y(old(self).palette_transform),
            spec_palette_id(final(self).palette_transform) == spec_palette_id(
                old(self).palette_transform,
            ),
            final(self).image_id == old(self).image_id,
            final(self).x == old(self).x,
            final(self).y == old(self).y,
    {
        let t = self.palette_transform;
        if flip {
            assert((t | 0x20u8) & 0x20u8 != 0 && (t | 0x20u8) & 0x10u8 == t & 0x10u8 && (t
                | 0x20u8) & 0x0fu8 == t & 0x0fu8) by (bit_vector);
            self.palette_transform = t | Self::FLIP_X_MASK;
        } else {
            assert((t & !0x20u8) & 0x20u8 == 0 && (t & !0x20u8) & 0x10u8 == t & 0x10u8 && (t
                & !0x20u8) & 0x0fu8 == t & 0x0fu8) by (bit_vector);
            self.palette_transform = t & !Self::FLIP_X_MASK;
        }
    }

    /// Sets or clears the flip-Y bit, leaving every other bit of the
    /// transform byte — the flip-X bit, the palette id and the reserved
    /// padding bits — and every other field unchanged, so a repeated set is
    /// a no-op.
    pub fn set_flip_y(&mut self, flip: bool)
        ensures
            final(self).palette_transform == (if flip {
                old(self).palette_transform | 0x10u8
            } else {
                old(self).palette_transform & !0x10u8
            }),
            spec_flip_y(final(self).palette_transform) == flip,
            spec_flip_x(final(self).palette_transform) == spec_flip_x(old(self).palette_transform),
            spec_palette_id(final(self).palette_transform) == spec_palette_id(
                old(self).palette_transform,
            ),
            final(self).image_id == old(self).image_id,
            final(self).x == old(self).x,
            final(self).y == old(self).y,
    {
        let t = self.palette_transform;
        if flip {
            assert((t | 0x10u8) & 0x10u8 != 0 && (t | 0x10u8) & 0x20u8 == t & 0x20u8 && (t
                | 0x10u8) & 0x0fu8 == t & 0x0fu8) by (bit_vector);
            self.palette_transform = t | Self::FLIP_Y_MASK;
        } else {
            assert((t & !0x10u8) & 0x10u8 == 0 && (t & !0x10u8) & 0x20u8 == t & 0x20u8 && (t
                & !0x10u8) & 0x0fu8 == t & 0x0fu8) by (bit_vector);
            self.palette_transform = t & !Self::FLIP_Y_MASK;
        }
    }
}

impl Default for Sprite {
    /// The zero sprite: image 0, no flips, palette 0, at the origin.
    fn default() -> (s: Sprite)
        ensures
            s.image_id == 0,
            s.palette_transform == 0,
            s.x == 0,
            s.y == 0,
    {
        Sprite { image_id: 0, palette_transform: 0, x: 0, y: 0 }
    }
}

} // verus!
