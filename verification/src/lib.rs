//! A fixed-resolution, palette-indexed 2D console runtime: resource tables,
//! shared scene state, a software compositor, and the host/cartridge session
//! protocol.

pub mod color;
pub mod compositor;
pub mod convert;
pub mod image;
pub mod input;
pub mod palette;
pub mod resources;
pub mod scene;
pub mod session;
pub mod sprite;

use vstd::prelude::*;

pub use crate::color::{rgba_to_u16, u16_to_rgba};
pub use crate::compositor::{render, scale_nearest};
pub use crate::image::Image;
pub use crate::input::{GamepadInput, InputState, Player};
pub use crate::palette::Palette;
pub use crate::resources::ResourceTables;
pub use crate::scene::{Scene, Tile};
pub use crate::session::{BindingTable, FatalError, Host, HostSlot, Phase, Session};
pub use crate::sprite::Sprite;

verus! {

/// Square pixel size of sprites and tiles.
pub const IMAGE_SIZE: usize = 16;

/// Pixels in one image (one tile unit squared).
pub const IMAGE_PIXELS: usize = IMAGE_SIZE * IMAGE_SIZE;

/// Bytes in one bitmap resource blob: two 4-bit pixels per byte.
pub const RESOURCE_BYTES: usize = IMAGE_PIXELS / 2;

/// Colors in one palette.
pub const PALETTE_COLORS: usize = 16;

/// Tiles per row of the visible canvas.
pub const CANVAS_WIDTH: usize = 16;

/// Tiles per column of the visible canvas.
pub const CANVAS_HEIGHT: usize = 12;

/// The total tile count of the visible canvas.
pub const CANVAS_SIZE: usize = CANVAS_WIDTH * CANVAS_HEIGHT;

/// Tiles per row of the background grid, including the one-tile scroll
/// margin on each side.
pub const BACKGROUND_CANVAS_WIDTH: usize = CANVAS_WIDTH + 2;

/// Tiles per column of the background grid, including the scroll margin.
pub const BACKGROUND_CANVAS_HEIGHT: usize = CANVAS_HEIGHT + 2;

/// The total tile count of the background grid: 18 columns by 14 rows.
pub const BACKGROUND_CANVAS_SIZE: usize = 252;

/// Pixels per row of the canvas.
pub const RESOLUTION_WIDTH: usize = IMAGE_SIZE * CANVAS_WIDTH;

/// Pixels per column of the canvas.
pub const RESOLUTION_HEIGHT: usize = IMAGE_SIZE * CANVAS_HEIGHT;

/// The total pixel count of the canvas: 256 columns by 192 rows.
pub const RESOLUTION_SIZE: usize = 49152;

/// Image table capacity.
pub const MAX_IMAGES: usize = 256;

/// Palette table capacity.
pub const MAX_PALETTES: usize = 16;

/// Sprite slot capacity.
pub const MAX_SPRITES: usize = 96;

} // verus!
