//! Color resolution: turning one incoming pixel byte into a packed RGB value.
//!
//! Two resolution strategies coexist and are chosen explicitly by
//! [`ColorMode`]: an indexed-palette mode, where the byte's low nibble selects
//! an entry of the active palette, and a direct-color mode, where the byte
//! itself carries RGB bit fields.

use vstd::prelude::*;

verus! {

/// How an incoming pixel byte is resolved to an RGB framebuffer value.
#[derive(Clone, Copy, PartialEq, Eq, Structural, Debug)]
pub enum ColorMode {
    /// The byte's low nibble indexes the active 16-entry palette; the entry
    /// is scaled to a visible intensity by [`palette_rgb`].
    Indexed,
    /// The byte itself encodes RGB via fixed bit fields: 3 red bits, 3 green
    /// bits, 2 blue bits, scaled by [`direct_rgb`].
    Direct,
}

/// The three red bits of a direct-color byte (its high bits).
pub open spec fn red_bits(b: u8) -> u8 {
    b >> 5
}

/// The three green bits of a direct-color byte (its middle bits).
pub open spec fn green_bits(b: u8) -> u8 {
    (b >> 2) & 7
}

/// The two blue bits of a direct-color byte (its low bits).
pub open spec fn blue_bits(b: u8) -> u8 {
    b & 3
}

/// The low nibble of a pixel byte: its index into a 16-entry palette.
pub open spec fn low_nibble(b: u8) -> u8 {
    b & 0xF
}

/// Direct-color resolution: red and green levels step by 36, blue by 85, and
/// the channels are packed as 0x00RRGGBB.
pub open spec fn direct_rgb(b: u8) -> u32 {
    (red_bits(b) as u32 * 36 * 0x10000 + green_bits(b) as u32 * 36 * 0x100 + blue_bits(b) as u32
        * 85) as u32
}

/// Indexed-palette resolution of one palette entry: the stored byte is
/// multiplied into a visible intensity.
pub open spec fn palette_rgb(entry: u8) -> u32 {
    (entry as u32 * 2000) as u32
}

/// The extracted channel fields of a direct-color byte are small.
pub proof fn lemma_color_field_bounds(b: u8)
    by (bit_vector)
    ensures
        red_bits(b) <= 7,
        green_bits(b) <= 7,
        blue_bits(b) <= 3,
        low_nibble(b) < 16,
{
}

/// A byte below 16 is its own low nibble.
pub proof fn lemma_low_nibble_identity(b: u8)
    by (bit_vector)
    requires
        b < 16,
    ensures
        low_nibble(b) == b,
{
}

/// Resolve a direct-color byte into a packed RGB value.
pub fn direct_color(b: u8) -> (c: u32)
    ensures
        c == direct_rgb(b),
{
    proof {
        lemma_color_field_bounds(b);
    }
    let r: u32 = (b >> 5) as u32;
    let g: u32 = ((b >> 2) & 7) as u32;
    let bl: u32 = (b & 3) as u32;
    r * 36 * 65536 + g * 36 * 256 + bl * 85
}

/// Scale one palette entry into its displayed RGB value.
pub fn palette_color(entry: u8) -> (c: u32)
    ensures
        c == palette_rgb(entry),
{
    entry as u32 * 2000
}

} // verus!
