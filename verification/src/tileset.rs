//! Tile resolver: from a raw gid and its owning tileset to the tile's local
//! index, its sprite-sheet pixel rectangle and its flip flags.
//!
//! The sheet is laid out in columns of `tile_width + spacing` pixels with no
//! trailing margin after the last column, so the column count is
//! `(sheet_width + spacing) / (tile_width + spacing)`, rounded down.  The
//! resulting texture rectangle is kept as pixel numerators over the sheet
//! dimensions; dividing by them yields the real texture coordinates, so the
//! rectangle is exact.

use vstd::prelude::*;

use crate::document::Tileset;
use crate::document::TilesetView;
use crate::geometry::GridPos;
use crate::gid::spec_clean_gid;
use crate::gid::spec_flip_flags;
use crate::gid::remove_tile_flags;
use crate::gid::flip_flags;

verus! {

/// A tile's texture rectangle: pixel numerators over the sheet dimensions.
/// `u_min / sheet_w` is the left texture coordinate, and so on.
#[derive(Clone, Copy, PartialEq, Eq, Structural, Debug)]
pub struct UvRect {
    pub u_min: i64,
    pub v_min: i64,
    pub u_max: i64,
    pub v_max: i64,
}

/// A tile quad's world-space corners, in subpixel steps
/// (see [`crate::geometry::SUBPIXELS`]).
#[derive(Clone, Copy, PartialEq, Eq, Structural, Debug)]
pub struct QuadRect {
    pub left: i64,
    pub bottom: i64,
    pub right: i64,
    pub top: i64,
}

/// One resolved tile of a chunk: where its quad stands in the world, which
/// part of the sheet it shows, and how it is flipped.
#[derive(Clone, Copy, PartialEq, Eq, Structural, Debug)]
pub struct TileChunk {
    /// The raw gid of the cell, flip bits included.
    pub tile_id: u32,
    /// The grid position of the cell on the map.
    pub pos: GridPos,
    /// World-space quad corners.
    pub vertex: QuadRect,
    /// Texture rectangle on the owning tileset's sheet.
    pub uv: UvRect,
    pub flip_d: bool,
    pub flip_h: bool,
    pub flip_v: bool,
}

/// Number of tile columns of the tileset's sheet.
pub open spec fn spec_columns(ts: TilesetView) -> int
    recommends
        ts.wf(),
        ts.images.len() >= 1,
{
    (ts.images[0].width + ts.spacing) / (ts.tile_width + ts.spacing) as int
}

/// Whether the tileset owns the (cleaned) gid of this raw cell value:
/// the clean gid lies in `[first_gid, first_gid + tile_count)`.  Empty
/// cells (gid 0) are never owned since `first_gid >= 1`.
pub open spec fn spec_owns(ts: TilesetView, raw: u32) -> bool {
    &&& ts.first_gid <= spec_clean_gid(raw)
    &&& (spec_clean_gid(raw) as int) < ts.first_gid + ts.tile_count
}

/// Sheet x coordinate, in pixels, of the tile with local index `t`.
pub open spec fn spec_sheet_x(ts: TilesetView, t: int) -> int
    recommends
        ts.wf(),
        ts.images.len() >= 1,
        t >= 0,
{
    (t % spec_columns(ts)) * (ts.tile_width + ts.spacing) - ts.spacing
}

/// Sheet y coordinate, in pixels, of the tile with local index `t`.
pub open spec fn spec_sheet_y(ts: TilesetView, t: int) -> int
    recommends
        ts.wf(),
        ts.images.len() >= 1,
        t >= 0,
{
    (t / spec_columns(ts)) * (ts.tile_height + ts.spacing) - ts.spacing
}

/// The texture rectangle of the tile with local index `t`.
pub open spec fn spec_uv_rect(ts: TilesetView, t: int) -> UvRect
    recommends
        ts.wf(),
        ts.images.len() >= 1,
        t >= 0,
{
    UvRect {
        u_min: spec_sheet_x(ts, t) as i64,
        v_min: spec_sheet_y(ts, t) as i64,
        u_max: (spec_sheet_x(ts, t) + ts.tile_width) as i64,
        v_max: (spec_sheet_y(ts, t) + ts.tile_height) as i64,
    }
}

/// The fully resolved tile for one owned cell: raw gid kept, placement as
/// handed in, texture rectangle from the local index, flips from the gid.
pub open spec fn spec_tile_chunk(
    ts: TilesetView,
    raw: u32,
    pos: GridPos,
    vertex: QuadRect,
) -> TileChunk
    recommends
        ts.wf(),
        ts.images.len() >= 1,
        spec_owns(ts, raw),
{
    TileChunk {
        tile_id: raw,
        pos,
        vertex,
        uv: spec_uv_rect(ts, spec_clean_gid(raw) - ts.first_gid),
        flip_d: spec_flip_flags(raw).flip_d,
        flip_h: spec_flip_flags(raw).flip_h,
        flip_v: spec_flip_flags(raw).flip_v,
    }
}

/// The column count is at least 1 and at most the padded sheet width.
pub proof fn lemma_columns_bounds(ts: TilesetView)
    requires
        ts.wf(),
        ts.images.len() >= 1,
    ensures
        1 <= spec_columns(ts) <= ts.images[0].width + ts.spacing,
{
    let num = ts.images[0].width + ts.spacing;
    let den = (ts.tile_width + ts.spacing) as int;
    assert(num / den >= 1) by (nonlinear_arith)
        requires num >= den > 0;
    assert(num / den <= num) by (nonlinear_arith)
        requires num >= 0 && den >= 1;
}

/// Bounds of the sheet rectangle of any local index `t`: the numerators
/// stay far inside `i64`.
pub proof fn lemma_sheet_bounds(ts: TilesetView, t: int)
    requires
        ts.wf(),
        ts.images.len() >= 1,
        0 <= t < 0x2000_0000,
    ensures
        -(ts.spacing as int) <= spec_sheet_x(ts, t) < 0x1_0000_0000_0000,
        -(ts.spacing as int) <= spec_sheet_y(ts, t) < 0x1_0000_0000_0000,
{
    let c = spec_columns(ts);
    let step_x = (ts.tile_width + ts.spacing) as int;
    let step_y = (ts.tile_height + ts.spacing) as int;
    lemma_columns_bounds(ts);
    assert(0 <= t % c < c) by (nonlinear_arith)
        requires c >= 1 && t >= 0;
    assert(0 <= t / c <= t) by (nonlinear_arith)
        requires c >= 1 && t >= 0;
    assert(0 <= (t % c) * step_x <= (c - 1) * step_x) by (nonlinear_arith)
        requires 0 <= t % c <= c - 1 && step_x >= 1;
    assert((c - 1) * step_x < 0x1_0000_0000_0000) by (nonlinear_arith)
        requires 1 <= c <= 0x10_2000 && 1 <= step_x <= 0x2000;
    assert(0 <= (t / c) * step_y < 0x1_0000_0000_0000) by (nonlinear_arith)
        requires 0 <= t / c < 0x2000_0000 && 1 <= step_y <= 0x2000;
}

impl Tileset {
    /// Number of tile columns of this tileset's sheet.
    pub fn columns(&self) -> (r: u32)
        requires
            self@.wf(),
            self.images.len() >= 1,
        ensures
            r as int == spec_columns(self@),
            r >= 1,
    {
        let img_w = self.images[0].width;
        proof {
            assert(1 <= self@.images[0].width <= 0x10_0000);
        }
        let r = (img_w + self.spacing) / (self.tile_width + self.spacing);
        proof {
            lemma_columns_bounds(self@);
        }
        r
    }

    /// Whether this tileset owns the cleaned gid of the raw cell value.
    pub fn owns(&self, raw: u32) -> (r: bool)
        requires
            self@.wf(),
        ensures
            r == spec_owns(self@, raw),
    {
        let clean = remove_tile_flags(raw);
        self.first_gid <= clean && clean < self.first_gid + self.tile_count
    }
}

impl TileChunk {
    /// Resolves one owned cell against its tileset: strips the flip bits,
    /// computes the local index and the sheet rectangle, and records the
    /// placement handed in by the chunk builder.
    pub fn from_layer_and_tileset(
        raw_gid: u32,
        tileset: &Tileset,
        pos: GridPos,
        vertex: QuadRect,
    ) -> (r: TileChunk)
        requires
            tileset@.wf(),
            tileset.images.len() >= 1,
            spec_owns(tileset@, raw_gid),
        ensures
            r == spec_tile_chunk(tileset@, raw_gid, pos, vertex),
    {
        let clean = remove_tile_flags(raw_gid);
        let flips = flip_flags(raw_gid);
        let tile = clean - tileset.first_gid;
        let columns = tileset.columns();
        proof {
            crate::gid::lemma_clean_gid_bound(raw_gid);
            lemma_sheet_bounds(tileset@, tile as int);
            lemma_columns_bounds(tileset@);
            assert(0 <= (tile as int) % (columns as int) < columns) by (nonlinear_arith)
                requires columns >= 1 && tile >= 0;
            assert(0 <= (tile as int) / (columns as int) <= tile) by (nonlinear_arith)
                requires columns >= 1 && tile >= 0;
        }
        let step_x = (tileset.tile_width + tileset.spacing) as i64;
        let step_y = (tileset.tile_height + tileset.spacing) as i64;
        let sheet_x = ((tile % columns) as i64) * step_x - tileset.spacing as i64;
        let sheet_y = ((tile / columns) as i64) * step_y - tileset.spacing as i64;
        proof {
            assert(0 <= ((tile as int) % (columns as int)) * (step_x as int)
                < 0x1_0000_0000_0000 + 0x2000) by (nonlinear_arith)
                requires
                    0 <= (tile as int) % (columns as int) <= 0x10_2000,
                    1 <= step_x <= 0x2000,
            ;
            assert(0 <= ((tile as int) / (columns as int)) * (step_y as int)
                < 0x1_0000_0000_0000 + 0x2000) by (nonlinear_arith)
                requires
                    0 <= (tile as int) / (columns as int) < 0x2000_0000,
                    1 <= step_y <= 0x2000,
            ;
        }
        TileChunk {
            tile_id: raw_gid,
            pos,
            vertex,
            uv: UvRect {
                u_min: sheet_x,
                v_min: sheet_y,
                u_max: sheet_x + tileset.tile_width as i64,
                v_max: sheet_y + tileset.tile_height as i64,
            },
            flip_d: flips.flip_d,
            flip_h: flips.flip_h,
            flip_v: flips.flip_v,
        }
    }
}

/// Resolving the first sheet row: for every local index `k` below the
/// column count, the sheet y coordinate is `-spacing` (so 0 whenever the
/// tileset declares no spacing) and the sheet x coordinate is
/// `k * (tile_width + spacing) - spacing`, which grows by exactly
/// `tile_width + spacing` from each index to the next.
pub proof fn lemma_first_row_resolution(ts: TilesetView, k: int)
    requires
        ts.wf(),
        ts.images.len() >= 1,
        0 <= k < spec_columns(ts),
    ensures
        spec_sheet_y(ts, k) == -(ts.spacing as int),
        spec_sheet_x(ts, k) == k * (ts.tile_width + ts.spacing) - ts.spacing,
        k >= 1 ==> spec_sheet_x(ts, k) - spec_sheet_x(ts, k - 1) == ts.tile_width + ts.spacing,
{
    let c = spec_columns(ts);
    lemma_columns_bounds(ts);
    vstd::arithmetic::div_mod::lemma_small_mod(k as nat, c as nat);
    vstd::arithmetic::div_mod::lemma_basic_div(k, c);
    if k >= 1 {
        vstd::arithmetic::div_mod::lemma_small_mod((k - 1) as nat, c as nat);
        assert(k * (ts.tile_width + ts.spacing) - (k - 1) * (ts.tile_width + ts.spacing)
            == ts.tile_width + ts.spacing) by (nonlinear_arith);
    }
}

/// On a sheet without spacing, the first `columns` local indices resolve
/// to the first row (`sheet_y` is 0) and march right by exactly one tile
/// width per index.
pub proof fn lemma_first_row_no_spacing(ts: TilesetView, k: int)
    requires
        ts.wf(),
        ts.images.len() >= 1,
        ts.spacing == 0,
        0 <= k < spec_columns(ts),
    ensures
        spec_sheet_y(ts, k) == 0,
        spec_sheet_x(ts, k) == k * ts.tile_width,
        k >= 1 ==> spec_sheet_x(ts, k) - spec_sheet_x(ts, k - 1) == ts.tile_width,
{
    lemma_first_row_resolution(ts, k);
}

} // verus!
