//! Raw global tile ids.
//!
//! A cell of a tile layer is a raw 32-bit id: the top three bits encode the
//! horizontal, vertical and diagonal flip of the tile, and the remaining 29
//! bits are a 1-based index into the combined tileset id space (0 = empty).

use vstd::prelude::*;

verus! {

/// Bit marking a horizontally flipped tile.
pub const FLIP_H_FLAG: u32 = 0x8000_0000;

/// Bit marking a vertically flipped tile.
pub const FLIP_V_FLAG: u32 = 0x4000_0000;

/// Bit marking a diagonally flipped (transposed) tile.
pub const FLIP_D_FLAG: u32 = 0x2000_0000;

/// Mask of the 29 id bits of a raw gid.
pub const GID_MASK: u32 = 0x1FFF_FFFF;

/// The id bits of a raw gid, with the three flip bits cleared.
pub open spec fn spec_clean_gid(raw: u32) -> u32 {
    raw & GID_MASK
}

/// Flip state of one placed tile.
#[derive(Clone, Copy, PartialEq, Eq, Structural, Debug)]
pub struct FlipFlags {
    pub flip_h: bool,
    pub flip_v: bool,
    pub flip_d: bool,
}

/// The flip bits of a raw gid.
pub open spec fn spec_flip_flags(raw: u32) -> FlipFlags {
    FlipFlags {
        flip_h: raw & FLIP_H_FLAG != 0,
        flip_v: raw & FLIP_V_FLAG != 0,
        flip_d: raw & FLIP_D_FLAG != 0,
    }
}

/// Strips the three flip bits from a raw gid, leaving the plain id.
pub fn remove_tile_flags(raw: u32) -> (r: u32)
    ensures
        r == spec_clean_gid(raw),
{
    raw & GID_MASK
}

/// Reads the three flip bits of a raw gid.
pub fn flip_flags(raw: u32) -> (r: FlipFlags)
    ensures
        r == spec_flip_flags(raw),
{
    FlipFlags {
        flip_h: raw & FLIP_H_FLAG != 0,
        flip_v: raw & FLIP_V_FLAG != 0,
        flip_d: raw & FLIP_D_FLAG != 0,
    }
}

/// The clean gid never exceeds the 29-bit mask.
pub proof fn lemma_clean_gid_bound(raw: u32)
    ensures
        spec_clean_gid(raw) <= GID_MASK,
{
    assert(raw & 0x1FFF_FFFF <= 0x1FFF_FFFF) by (bit_vector);
}

} // verus!
