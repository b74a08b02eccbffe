//! Display and graphics subsystem of a small virtual console.
//!
//! The driving virtual machine pushes pixel-row and control commands through a
//! narrow syscall interface; this crate rasterizes palette-indexed tile and
//! sprite data into an RGB framebuffer that a window backend presents.  The
//! data model (palettes, tiles, sprites, a scrollable background plane and the
//! viewport framebuffer) and the row-write/present protocol live here; the
//! window bootstrap and the VM execution loop live outside the library.

pub mod color;
pub mod errors;
pub mod system;
pub mod vm_bridge;

use vstd::prelude::*;

verus! {

/// Edge length of a square tile, in pixels.
pub const TILE_SIZE: usize = 8;

/// Height of the visible viewport, in pixels.
pub const VIEWPORT_HEIGHT: usize = 128;

/// Width of the visible viewport, in pixels: one and a half times
/// `VIEWPORT_HEIGHT`.
pub const VIEWPORT_WIDTH: usize = 192;

/// Width of the background plane, in tiles: twice the viewport's width in
/// tiles, `(VIEWPORT_WIDTH / TILE_SIZE) * 2`.
pub const BACKGROUND_WIDTH: usize = 48;

/// Height of the background plane, in tiles: twice the viewport's height in
/// tiles, `(VIEWPORT_HEIGHT / TILE_SIZE) * 2`.
pub const BACKGROUND_HEIGHT: usize = 32;

/// Number of colors in one palette.
pub const PALETTE_COLOR_COUNT: usize = 16;

/// Number of palette slots in the palette table.
pub const PALETTE_COUNT: usize = 16;

/// Capacity of the tile store: four times the background plane's tile count
/// `BACKGROUND_WIDTH * BACKGROUND_HEIGHT`, leaving headroom for sprite-only
/// tiles that are never placed on the plane.
pub const MAX_TILE_COUNT: usize = 6144;

/// Number of sprite slots in the sprite table.
pub const SPRITE_COUNT: usize = 256;

/// Maximum number of tile references one sprite may hold.
pub const SPRITE_TILE_COUNT: usize = 32;

/// Number of fixed-size memory pages this subsystem asks of the driving VM.
pub const SYSTEM_MEM_PAGES: u8 = 1;

/// Largest horizontal scroll offset at which the viewport still lies inside
/// the background plane: `BACKGROUND_WIDTH * TILE_SIZE - VIEWPORT_WIDTH`.
pub const MAX_SCROLL_X: usize = 192;

/// Largest vertical scroll offset at which the viewport still lies inside
/// the background plane: `BACKGROUND_HEIGHT * TILE_SIZE - VIEWPORT_HEIGHT`.
pub const MAX_SCROLL_Y: usize = 128;

/// The stable identifier this subsystem advertises; the driving VM checks it
/// against the ROM before execution begins.
pub fn system_id() -> (id: &'static str)
    ensures
        id@ == "org.bakervm.tmod"@,
{
    "org.bakervm.tmod"
}

} // verus!
