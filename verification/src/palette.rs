//! Color tables: 16 packed 16-bit colors, immutable after load and selected
//! per draw by a 4-bit palette id.

use vstd::prelude::*;
use crate::PALETTE_COLORS;

verus! {

/// A 16-color palette usable by any tile or sprite. Each color is a packed
/// 16-bit integer, 4 bits per channel.
#[derive(Copy, Clone)]
pub struct Palette(pub [u16; PALETTE_COLORS]);

impl Palette {
    /// The all-zero palette: every entry is the transparent color.
    pub fn empty() -> (p: Palette)
        ensures
            forall|i: int| 0 <= i < PALETTE_COLORS ==> p.0@[i] == 0,
    {
        Palette([0u16; PALETTE_COLORS])
    }
}

} // verus!
