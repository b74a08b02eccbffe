//! The rendering/memory model: palette table, tile store, sprite table,
//! background plane and the viewport framebuffer with its row-write entry
//! point.

use vstd::prelude::*;

use crate::color::ColorMode;
use crate::color::direct_rgb;
use crate::color::low_nibble;
use crate::color::palette_rgb;
use crate::color::direct_color;
use crate::color::palette_color;
use crate::color::lemma_color_field_bounds;
use crate::color::lemma_low_nibble_identity;
use crate::errors::SysError;
use crate::BACKGROUND_HEIGHT;
use crate::BACKGROUND_WIDTH;
use crate::MAX_SCROLL_X;
use crate::MAX_SCROLL_Y;
use crate::MAX_TILE_COUNT;
use crate::PALETTE_COLOR_COUNT;
use crate::PALETTE_COUNT;
use crate::SPRITE_COUNT;
use crate::SPRITE_TILE_COUNT;
use crate::TILE_SIZE;
use crate::VIEWPORT_HEIGHT;
use crate::VIEWPORT_WIDTH;

verus! {

/// A tile definition: 8x8 pixels, each a 4-bit index into one of the 16
/// colors of the palette the drawing context selects.  Each array entry is
/// one pixel row of eight packed nibbles; the leftmost pixel sits in the most
/// significant nibble.
#[derive(Clone, Copy, PartialEq, Eq, Debug)]
pub struct Tile(pub [u32; 8]);

/// A sprite composed from multiple tiles.  A sprite selects the palette used
/// for all of its tiles and references tile slots by id only: the reference
/// is weak by design, so overwriting a referenced tile slot is a valid,
/// non-fatal state.
#[derive(Clone, Copy, PartialEq, Eq, Debug)]
pub struct Sprite {
    /// Index of the palette all tiles of this sprite are drawn with.
    pub palette: u8,
    /// Width of the sprite, in tiles.
    pub width: u8,
    /// Height of the sprite, in tiles.
    pub height: u8,
    /// The referenced tile ids, row-major.
    pub tiles: [u16; 32],
}

impl Tile {
    /// The 4-bit color index of the pixel at column `x` of row `y`.
    pub open spec fn pixel_spec(self, x: int, y: int) -> u8 {
        (((self.0@[y] >> ((7 - x) as u32 * 4)) & 0xF) as u8)
    }

    /// A tile whose pixels are all color index 0.
    pub fn blank() -> (t: Tile)
        ensures
            forall|x: int, y: int| 0 <= x < 8 && 0 <= y < 8 ==> t.pixel_spec(x, y) == 0,
            forall|y: int| 0 <= y < 8 ==> t.0@[y] == 0u32,
    {
        let t = Tile([0u32; 8]);
        proof {
            assert forall|x: int, y: int| 0 <= x < 8 && 0 <= y < 8 implies t.pixel_spec(x, y)
                == 0 by {
                let sh: u32 = ((7 - x) * 4) as u32;
                assert((((0u32 >> sh) & 0xF) as u8) == 0) by (bit_vector);
            }
        }
        t
    }

    /// Read one pixel's 4-bit color index.
    pub fn pixel(&self, x: usize, y: usize) -> (p: u8)
        requires
            x < TILE_SIZE,
            y < TILE_SIZE,
        ensures
            p == self.pixel_spec(x as int, y as int),
            p < 16,
    {
        let sh: u32 = (7 - x as u32) * 4;
        let p = ((self.0[y] >> sh) & 0xF) as u8;
        proof {
            let row = self.0@[y as int];
            assert((((row >> sh) & 0xF) as u8) < 16) by (bit_vector);
        }
        p
    }
}

/// A sprite whose fields are all zero: no palette, no extent, no tiles.
impl Sprite {
    /// The all-zero sprite that fills the table at startup.
    pub fn empty() -> (s: Sprite)
        ensures
            s.palette == 0,
            s.width == 0,
            s.height == 0,
            s.tiles@ =~= Seq::new(SPRITE_TILE_COUNT as nat, |i: int| 0u16),
    {
        let s = Sprite { palette: 0, width: 0, height: 0, tiles: [0u16; 32] };
        s
    }
}

/// The whole display subsystem: framebuffer, palette table, tile store,
/// sprite table and the scrollable background plane.
///
/// Out-of-range indices (palette, tile or sprite ids, plane coordinates) are
/// rejected at the contract level: the accessors require their indices to be
/// in bounds, so the driving code must check before calling.  The one
/// runtime-checked bound is the row index of [`MatrixSystem::write_row`],
/// which fails deterministically with [`SysError::OutOfRangeAccess`].
pub struct MatrixSystem {
    /// The presented framebuffer: one packed RGB value per pixel, row-major,
    /// `VIEWPORT_WIDTH * VIEWPORT_HEIGHT` entries.
    pub buffer: Vec<u32>,
    /// The palette table, flattened: entry `i` of palette `p` sits at
    /// `p * PALETTE_COLOR_COUNT + i`.
    pub palettes: Vec<u8>,
    /// The tile store, `MAX_TILE_COUNT` slots.
    pub tiles: Vec<Tile>,
    /// The sprite table, `SPRITE_COUNT` slots.
    pub sprites: Vec<Sprite>,
    /// The scroll offset of the viewport within the background plane, in
    /// pixels; clamped so the viewport never leaves the plane.
    pub viewport_pos: (usize, usize),
    /// The background plane: a tile id per cell, row-major,
    /// `BACKGROUND_WIDTH * BACKGROUND_HEIGHT` cells.
    pub background: Vec<u16>,
    /// The palette the whole background plane is drawn with.
    pub background_palette: u8,
    /// How incoming pixel bytes are resolved to RGB.
    pub mode: ColorMode,
    /// Whether a halt request was already passed on to the driving VM; keeps
    /// the quit poll from re-triggering every cycle after shutdown begins.
    pub halt_sent: bool,
}

/// Build a vector of `n` copies of `val`.
fn filled<T: Copy>(n: usize, val: T) -> (v: Vec<T>)
    ensures
        v@.len() == n,
        forall|i: int| 0 <= i < n ==> v@[i] == val,
{
    let mut v: Vec<T> = Vec::new();
    let mut k: usize = 0;
    while k < n
        invariant
            k <= n,
            v@.len() == k,
            forall|i: int| 0 <= i < k ==> v@[i] == val,
        decreases n - k,
    {
        v.push(val);
        k = k + 1;
    }
    v
}

impl MatrixSystem {
    /// Every container has its fixed capacity, every stored index is in
    /// range, and the viewport rectangle lies inside the background plane.
    pub open spec fn wf(self) -> bool {
        &&& self.buffer@.len() == VIEWPORT_WIDTH * VIEWPORT_HEIGHT
        &&& self.palettes@.len() == PALETTE_COUNT * PALETTE_COLOR_COUNT
        &&& self.tiles@.len() == MAX_TILE_COUNT
        &&& self.sprites@.len() == SPRITE_COUNT
        &&& self.background@.len() == BACKGROUND_WIDTH * BACKGROUND_HEIGHT
        &&& forall|i: int|
            0 <= i < self.background@.len() ==> (self.background@[i] as int) < MAX_TILE_COUNT
        &&& (self.background_palette as int) < PALETTE_COUNT
        &&& self.viewport_pos.0 <= MAX_SCROLL_X
        &&& self.viewport_pos.1 <= MAX_SCROLL_Y
    }

    /// The entry of palette `p` at color index `i`.
    pub open spec fn palette_entry(self, p: int, i: int) -> u8 {
        self.palettes@[p * PALETTE_COLOR_COUNT + i]
    }

    /// How one incoming pixel byte resolves to RGB in the current state: by
    /// bit-field extraction in direct mode, through the background palette in
    /// indexed mode.
    pub open spec fn resolve_spec(self, b: u8) -> u32 {
        match self.mode {
            ColorMode::Direct => direct_rgb(b),
            ColorMode::Indexed => palette_rgb(
                self.palette_entry(self.background_palette as int, low_nibble(b) as int),
            ),
        }
    }

    /// Resolve one incoming pixel byte to its RGB value in the current state.
    pub fn resolve(&self, b: u8) -> (c: u32)
        requires
            self.wf(),
        ensures
            c == self.resolve_spec(b),
    {
        match self.mode {
            ColorMode::Direct => direct_color(b),
            ColorMode::Indexed => {
                proof {
                    lemma_color_field_bounds(b);
                }
                let idx: usize = (self.background_palette as usize) * PALETTE_COLOR_COUNT + (b
                    & 0xF) as usize;
                palette_color(self.palettes[idx])
            },
        }
    }

    /// Pure palette lookup: the displayed RGB value of color `color_index` of
    /// palette `palette_id`.  Out-of-range indices are a programming error of
    /// the caller and are excluded by contract.
    pub fn resolve_color(&self, palette_id: u8, color_index: u8) -> (c: u32)
        requires
            self.wf(),
            (palette_id as int) < PALETTE_COUNT,
            (color_index as int) < PALETTE_COLOR_COUNT,
        ensures
            c == palette_rgb(self.palette_entry(palette_id as int, color_index as int)),
    {
        palette_color(
            self.palettes[(palette_id as usize) * PALETTE_COLOR_COUNT + (color_index as usize)],
        )
    }

    /// Store one color entry of one palette.
    pub fn set_palette_entry(&mut self, palette_id: u8, color_index: u8, value: u8)
        requires
            old(self).wf(),
            (palette_id as int) < PALETTE_COUNT,
            (color_index as int) < PALETTE_COLOR_COUNT,
        ensures
            final(self).wf(),
            final(self).palettes@ == old(self).palettes@.update(
                palette_id as int * PALETTE_COLOR_COUNT + color_index as int,
                value,
            ),
            *final(self) == (MatrixSystem { palettes: final(self).palettes, ..*old(self) }),
    {
        let idx: usize = (palette_id as usize) * PALETTE_COLOR_COUNT + (color_index as usize);
        self.palettes[idx] = value;
    }

    /// Read the tile stored in slot `id` of the tile store.
    pub fn get_tile(&self, id: u16) -> (t: Tile)
        requires
            self.wf(),
            (id as int) < MAX_TILE_COUNT,
        ensures
            t == self.tiles@[id as int],
    {
        self.tiles[id as usize]
    }

    /// Overwrite slot `id` of the tile store.  Sprites or background cells
    /// referencing the slot simply see the new tile: the references are weak.
    pub fn set_tile(&mut self, id: u16, tile: Tile)
        requires
            old(self).wf(),
            (id as int) < MAX_TILE_COUNT,
        ensures
            final(self).wf(),
            final(self).tiles@ == old(self).tiles@.update(id as int, tile),
            *final(self) == (MatrixSystem { tiles: final(self).tiles, ..*old(self) }),
    {
        self.tiles[id as usize] = tile;
    }

    /// Read the sprite stored in slot `id`; every `u8` id is a valid slot.
    pub fn get_sprite(&self, id: u8) -> (s: Sprite)
        requires
            self.wf(),
        ensures
            s == self.sprites@[id as int],
    {
        self.sprites[id as usize]
    }

    /// Overwrite sprite slot `id`.
    pub fn set_sprite(&mut self, id: u8, sprite: Sprite)
        requires
            old(self).wf(),
        ensures
            final(self).wf(),
            final(self).sprites@ == old(self).sprites@.update(id as int, sprite),
            *final(self) == (MatrixSystem { sprites: final(self).sprites, ..*old(self) }),
    {
        self.sprites[id as usize] = sprite;
    }

    /// The tile id the background plane holds at cell `(plane_x, plane_y)`.
    pub fn plane_tile_id(&self, plane_x: usize, plane_y: usize) -> (id: u16)
        requires
            self.wf(),
            plane_x < BACKGROUND_WIDTH,
            plane_y < BACKGROUND_HEIGHT,
        ensures
            id == self.background@[plane_y * BACKGROUND_WIDTH + plane_x],
            (id as int) < MAX_TILE_COUNT,
    {
        self.background[plane_y * BACKGROUND_WIDTH + plane_x]
    }

    /// Point cell `(plane_x, plane_y)` of the background plane at tile `id`.
    pub fn set_plane_tile(&mut self, plane_x: usize, plane_y: usize, id: u16)
        requires
            old(self).wf(),
            plane_x < BACKGROUND_WIDTH,
            plane_y < BACKGROUND_HEIGHT,
            (id as int) < MAX_TILE_COUNT,
        ensures
            final(self).wf(),
            final(self).background@ == old(self).background@.update(
                plane_y as int * BACKGROUND_WIDTH + plane_x as int,
                id,
            ),
            *final(self) == (MatrixSystem { background: final(self).background, ..*old(self) }),
    {
        let idx: usize = plane_y * BACKGROUND_WIDTH + plane_x;
        self.background[idx] = id;
    }

    /// The tile the background plane shows at cell `(plane_x, plane_y)`,
    /// read through the tile store.  Reads never leave the plane's grid: the
    /// coordinates are bounded by contract.
    pub fn tile_at(&self, plane_x: usize, plane_y: usize) -> (t: Tile)
        requires
            self.wf(),
            plane_x < BACKGROUND_WIDTH,
            plane_y < BACKGROUND_HEIGHT,
        ensures
            t == self.tiles@[self.background@[plane_y * BACKGROUND_WIDTH + plane_x] as int],
    {
        let id = self.plane_tile_id(plane_x, plane_y);
        self.tiles[id as usize]
    }

    /// Move the viewport to scroll offset `(x, y)`, clamped so the viewport
    /// rectangle never exceeds the background plane's bounds.  Clamping (not
    /// wrapping) was chosen as the edge policy: it avoids visual seams.
    pub fn scroll_to(&mut self, x: usize, y: usize)
        requires
            old(self).wf(),
        ensures
            final(self).wf(),
            final(self).viewport_pos.0 == (if x > MAX_SCROLL_X { MAX_SCROLL_X as int } else { x as int }),
            final(self).viewport_pos.1 == (if y > MAX_SCROLL_Y { MAX_SCROLL_Y as int } else { y as int }),
            *final(self) == (MatrixSystem { viewport_pos: final(self).viewport_pos, ..*old(self) }),
    {
        let cx: usize = if x > MAX_SCROLL_X { MAX_SCROLL_X } else { x };
        let cy: usize = if y > MAX_SCROLL_Y { MAX_SCROLL_Y } else { y };
        self.viewport_pos = (cx, cy);
    }

    /// Choose how incoming pixel bytes are resolved to RGB.
    pub fn set_color_mode(&mut self, mode: ColorMode)
        requires
            old(self).wf(),
        ensures
            final(self).wf(),
            final(self).mode == mode,
            *final(self) == (MatrixSystem { mode, ..*old(self) }),
    {
        self.mode = mode;
    }

    /// Select the palette the background plane (and row writes in indexed
    /// mode) are drawn with.
    pub fn set_background_palette(&mut self, palette_id: u8)
        requires
            old(self).wf(),
            (palette_id as int) < PALETTE_COUNT,
        ensures
            final(self).wf(),
            final(self).background_palette == palette_id,
            *final(self) == (MatrixSystem { background_palette: palette_id, ..*old(self) }),
    {
        self.background_palette = palette_id;
    }

    /// Borrow the presented framebuffer, row-major packed RGB.
    pub fn framebuffer(&self) -> (b: &Vec<u32>)
        ensures
            b@ == self.buffer@,
    {
        &self.buffer
    }

    /// Overwrite framebuffer row `row_index` with the resolved colors of
    /// `source_pixels`, one indexed-color byte per column.
    ///
    /// A row index at or beyond the viewport height fails deterministically
    /// with [`SysError::OutOfRangeAccess`] and changes nothing: adjacent rows
    /// are never corrupted.
    pub fn write_row(&mut self, row_index: usize, source_pixels: &[u8]) -> (res: Result<
        (),
        SysError,
    >)
        requires
            old(self).wf(),
            source_pixels@.len() == VIEWPORT_WIDTH,
        ensures
            final(self).wf(),
            res is Ok <==> row_index < VIEWPORT_HEIGHT,
            res is Ok ==> row_write_ok(*old(self), *final(self), row_index as int, source_pixels@),
            res is Err ==> *final(self) == *old(self) && res == Err::<(), SysError>(
                SysError::OutOfRangeAccess,
            ),
    {
        if row_index >= VIEWPORT_HEIGHT {
            return Err(SysError::OutOfRangeAccess);
        }
        let start: usize = row_index * VIEWPORT_WIDTH;
        let mut c: usize = 0;
        while c < VIEWPORT_WIDTH
            invariant
                old(self).wf(),
                self.wf(),
                c <= VIEWPORT_WIDTH,
                row_index < VIEWPORT_HEIGHT,
                start == row_index * VIEWPORT_WIDTH,
                source_pixels@.len() == VIEWPORT_WIDTH,
                self.buffer@.len() == old(self).buffer@.len(),
                *self == (MatrixSystem { buffer: self.buffer, ..*old(self) }),
                forall|k: int|
                    0 <= k < c ==> self.buffer@[start + k] == old(self).resolve_spec(
                        source_pixels@[k],
                    ),
                forall|i: int|
                    0 <= i < self.buffer@.len() && !(start <= i < start + c) ==> self.buffer@[i]
                        == old(self).buffer@[i],
            decreases VIEWPORT_WIDTH - c,
        {
            let px = self.resolve(source_pixels[c]);
            self.buffer[start + c] = px;
            c = c + 1;
        }
        Ok(())
    }

    /// Poll the quit input once per cycle.  The first cycle that sees the
    /// input down reports that a halt request must be issued; every later
    /// cycle reports `false`, so the request is never re-triggered after
    /// shutdown begins.
    pub fn quit_poll(&mut self, quit_down: bool) -> (issued: bool)
        requires
            old(self).wf(),
        ensures
            final(self).wf(),
            quit_cycle(*old(self), *final(self), quit_down, issued),
    {
        let issued = quit_down && !self.halt_sent;
        if quit_down {
            self.halt_sent = true;
        }
        issued
    }

    /// Check at run time that the state is well formed; the driving code can
    /// call this once at startup before it trusts the contracts that assume
    /// well-formedness.
    pub fn is_well_formed(&self) -> (b: bool)
        ensures
            b == self.wf(),
    {
        if !(self.buffer.len() == VIEWPORT_WIDTH * VIEWPORT_HEIGHT && self.palettes.len()
            == PALETTE_COUNT * PALETTE_COLOR_COUNT && self.tiles.len() == MAX_TILE_COUNT
            && self.sprites.len() == SPRITE_COUNT && self.background.len() == BACKGROUND_WIDTH
            * BACKGROUND_HEIGHT && (self.background_palette as usize) < PALETTE_COUNT
            && self.viewport_pos.0 <= MAX_SCROLL_X && self.viewport_pos.1 <= MAX_SCROLL_Y) {
            return false;
        }
        let mut i: usize = 0;
        while i < self.background.len()
            invariant
                i <= self.background@.len(),
                forall|k: int| 0 <= k < i ==> (self.background@[k] as int) < MAX_TILE_COUNT,
            decreases self.background@.len() - i,
        {
            if self.background[i] as usize >= MAX_TILE_COUNT {
                return false;
            }
            i = i + 1;
        }
        true
    }

    /// Allocate the zero-initialized subsystem: black framebuffer, all-zero
    /// palettes, blank tiles, empty sprites, an unscrolled viewport and
    /// indexed-palette color resolution.
    pub fn new() -> (s: MatrixSystem)
        ensures
            s.wf(),
            forall|i: int| 0 <= i < s.buffer@.len() ==> s.buffer@[i] == 0u32,
            forall|i: int| 0 <= i < s.palettes@.len() ==> s.palettes@[i] == 0u8,
            forall|i: int| 0 <= i < s.background@.len() ==> s.background@[i] == 0u16,
            forall|i: int, y: int|
                0 <= i < s.tiles@.len() && 0 <= y < 8 ==> s.tiles@[i].0@[y] == 0u32,
            forall|i: int|
                0 <= i < s.sprites@.len() ==> s.sprites@[i].palette == 0 && s.sprites@[i].width
                    == 0 && s.sprites@[i].height == 0,
            forall|i: int, k: int|
                0 <= i < s.sprites@.len() && 0 <= k < SPRITE_TILE_COUNT ==> s.sprites@[i].tiles@[k]
                    == 0u16,
            s.viewport_pos.0 == 0 && s.viewport_pos.1 == 0,
            s.background_palette == 0,
            s.mode == ColorMode::Indexed,
            !s.halt_sent,
    {
        let blank = Tile::blank();
        let empty = Sprite::empty();
        let s = MatrixSystem {
            buffer: filled(VIEWPORT_WIDTH * VIEWPORT_HEIGHT, 0u32),
            palettes: filled(PALETTE_COUNT * PALETTE_COLOR_COUNT, 0u8),
            tiles: filled(MAX_TILE_COUNT, blank),
            sprites: filled(SPRITE_COUNT, empty),
            viewport_pos: (0, 0),
            background: filled(BACKGROUND_WIDTH * BACKGROUND_HEIGHT, 0u16),
            background_palette: 0,
            mode: ColorMode::Indexed,
            halt_sent: false,
        };
        proof {
            assert forall|i: int, y: int|
                0 <= i < s.tiles@.len() && 0 <= y < 8 implies s.tiles@[i].0@[y] == 0u32 by {
                assert(s.tiles@[i] == blank);
            }
            assert forall|i: int, k: int|
                0 <= i < s.sprites@.len() && 0 <= k < SPRITE_TILE_COUNT implies s.sprites@[i].tiles@[k]
                == 0u16 by {
                assert(s.sprites@[i] == empty);
            }
        }
        s
    }
}

/// The successful row-write transition: row `row` of the framebuffer holds
/// the resolved colors of `data`, every other pixel and every other part of
/// the state are untouched.
pub open spec fn row_write_ok(
    pre: MatrixSystem,
    post: MatrixSystem,
    row: int,
    data: Seq<u8>,
) -> bool {
    &&& post.buffer@.len() == pre.buffer@.len()
    &&& forall|c: int|
        0 <= c < VIEWPORT_WIDTH ==> post.buffer@[row * VIEWPORT_WIDTH + c] == pre.resolve_spec(
            data[c],
        )
    &&& forall|i: int|
        0 <= i < pre.buffer@.len() && !(row * VIEWPORT_WIDTH <= i < row * VIEWPORT_WIDTH
            + VIEWPORT_WIDTH) ==> post.buffer@[i] == pre.buffer@[i]
    &&& post == (MatrixSystem { buffer: post.buffer, ..pre })
}

/// Row writes are idempotent: writing the same bytes to the same row twice
/// leaves exactly the framebuffer the first write produced, because a row
/// write is a pure function of its input bytes and the palette state, and
/// never changes that state.
pub proof fn lemma_write_row_idempotent(
    s0: MatrixSystem,
    s1: MatrixSystem,
    s2: MatrixSystem,
    row: int,
    data: Seq<u8>,
)
    requires
        s0.wf(),
        0 <= row < VIEWPORT_HEIGHT,
        data.len() == VIEWPORT_WIDTH,
        row_write_ok(s0, s1, row, data),
        row_write_ok(s1, s2, row, data),
    ensures
        s2.buffer@ =~= s1.buffer@,
{
    assert(row * VIEWPORT_WIDTH + VIEWPORT_WIDTH <= s0.buffer@.len()) by (nonlinear_arith)
        requires
            0 <= row < VIEWPORT_HEIGHT,
            s0.buffer@.len() == VIEWPORT_WIDTH * VIEWPORT_HEIGHT,
            s0.wf(),
    ;
    assert forall|i: int| 0 <= i < s2.buffer@.len() implies s2.buffer@[i] == s1.buffer@[i] by {
        if row * VIEWPORT_WIDTH <= i < row * VIEWPORT_WIDTH + VIEWPORT_WIDTH {
            let c = i - row * VIEWPORT_WIDTH;
            assert(s2.buffer@[row * VIEWPORT_WIDTH + c] == s1.resolve_spec(data[c]));
            assert(s1.resolve_spec(data[c]) == s0.resolve_spec(data[c]));
        }
    }
}

/// Whether a cycle that sees the quit input as `quit_down` issues a halt
/// request from state `pre`: only when the input is down and no request was
/// sent before.
pub open spec fn halt_issued(pre: MatrixSystem, quit_down: bool) -> bool {
    quit_down && !pre.halt_sent
}

/// The quit-poll transition of one cycle: the poll reports `issued` exactly
/// when a halt request leaves this cycle, the latch records that the input
/// was seen, and nothing else changes.
pub open spec fn quit_cycle(
    pre: MatrixSystem,
    post: MatrixSystem,
    quit_down: bool,
    issued: bool,
) -> bool {
    &&& issued == halt_issued(pre, quit_down)
    &&& post.halt_sent == (pre.halt_sent || quit_down)
    &&& post == (MatrixSystem { halt_sent: post.halt_sent, ..pre })
}

/// A halt request is issued exactly once: from a state that has not sent one
/// yet, the first cycle with the quit input down issues it, and the cycle
/// after that (and so every later one) does not, however the input stands.
pub proof fn lemma_halt_request_once(
    s0: MatrixSystem,
    s1: MatrixSystem,
    s2: MatrixSystem,
    issued1: bool,
    issued2: bool,
    later_quit: bool,
)
    requires
        !s0.halt_sent,
        quit_cycle(s0, s1, true, issued1),
        quit_cycle(s1, s2, later_quit, issued2),
    ensures
        issued1,
        !issued2,
{
}

/// The palette round trip: in indexed mode, a row write whose first sixteen
/// bytes are the color indices 0 through 15 reproduces the active palette's
/// sixteen configured colors, in order, at the start of the written row.
pub proof fn lemma_palette_round_trip(
    pre: MatrixSystem,
    post: MatrixSystem,
    row: int,
    data: Seq<u8>,
)
    requires
        pre.wf(),
        pre.mode == ColorMode::Indexed,
        0 <= row < VIEWPORT_HEIGHT,
        data.len() == VIEWPORT_WIDTH,
        forall|i: int| 0 <= i < PALETTE_COLOR_COUNT ==> data[i] == i,
        row_write_ok(pre, post, row, data),
    ensures
        forall|i: int|
            0 <= i < PALETTE_COLOR_COUNT ==> post.buffer@[row * VIEWPORT_WIDTH + i] == palette_rgb(
                pre.palette_entry(pre.background_palette as int, i),
            ),
{
    assert forall|i: int| 0 <= i < PALETTE_COLOR_COUNT implies post.buffer@[row * VIEWPORT_WIDTH
        + i] == palette_rgb(pre.palette_entry(pre.background_palette as int, i)) by {
        let b = data[i];
        lemma_low_nibble_identity(b);
        assert(post.buffer@[row * VIEWPORT_WIDTH + i] == pre.resolve_spec(b));
    }
}

} // verus!
