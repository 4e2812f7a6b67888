//! Shared scene state: the background tile grid and the foreground sprite
//! list, fixed-capacity and zero-initialized at session start. The cartridge
//! overwrites entries during its per-frame hook; the compositor only reads.
//! Because both layers are fixed-size arrays, writing past the declared
//! counts is not a representable operation.

use vstd::prelude::*;
use crate::sprite::Sprite;
use crate::{BACKGROUND_CANVAS_SIZE, MAX_SPRITES};

verus! {

/// One background grid cell: an image id paired with a palette id. Only the
/// low 4 bits of the palette id select a palette.
#[derive(Copy, Clone)]
pub struct Tile {
    pub image_id: u8,
    /// The low 4 bits select the palette; the high bits are reserved.
    pub palette_id: u8,
}

impl Default for Tile {
    /// The zero tile: image 0 with palette 0.
    fn default() -> (t: Tile)
        ensures
            t.image_id == 0,
            t.palette_id == 0,
    {
        Tile { image_id: 0, palette_id: 0 }
    }
}

/// The mutable per-frame region shared by the session driver (which hands it
/// to the cartridge to write) and the compositor (which reads it). The
/// single-writer-then-single-reader order per frame is enforced by Rust
/// borrows: the write-phase view is `&mut`, the read-phase view is `&`.
pub struct Scene {
    pub foreground: [Sprite; MAX_SPRITES],
    pub background: [Tile; BACKGROUND_CANVAS_SIZE],
}

impl Scene {
    /// The zero-initialized scene every session starts from.
    pub fn new() -> (s: Scene)
        ensures
            forall|i: int|
                0 <= i < MAX_SPRITES ==> (#[trigger] s.foreground@[i]).image_id == 0
                    && s.foreground@[i].palette_transform == 0 && s.foreground@[i].x == 0
                    && s.foreground@[i].y == 0,
            forall|i: int|
                0 <= i < BACKGROUND_CANVAS_SIZE ==> (#[trigger] s.background@[i]).image_id == 0
                    && s.background@[i].palette_id == 0,
    {
        Scene {
            foreground: [Sprite { image_id: 0, palette_transform: 0, x: 0, y: 0 }; MAX_SPRITES],
            background: [Tile { image_id: 0, palette_id: 0 }; BACKGROUND_CANVAS_SIZE],
        }
    }

    /// The write-phase view of the sprite list, handed to the cartridge's
    /// per-frame hook.
    pub fn get_foreground(&mut self) -> (fg: &mut [Sprite; MAX_SPRITES])
        ensures
            *fg == old(self).foreground,
            final(self).foreground == *final(fg),
            final(self).background == old(self).background,
    {
        &mut self.foreground
    }

    /// The write-phase view of the background grid, handed to the
    /// cartridge's per-frame hook.
    pub fn get_background(&mut self) -> (bg: &mut [Tile; BACKGROUND_CANVAS_SIZE])
        ensures
            *bg == old(self).background,
            final(self).background == *final(bg),
            final(self).foreground == old(self).foreground,
    {
        &mut self.background
    }
}

} // verus!
