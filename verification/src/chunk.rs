//! Chunk builder: partitions one (layer, tileset) pair of the map into
//! fixed-size chunks and resolves, for each chunk, the tiles belonging to
//! that tileset.
//!
//! A chunk covers `chunk_size × chunk_size` grid cells.  Cells outside the
//! map bounds, empty cells and cells owned by another tileset contribute
//! nothing — they are expected skips, not errors.  A chunk whose every cell
//! is skipped yields no mesh at all, never an empty mesh.

use vstd::prelude::*;

use crate::document::MapDocumentView;
use crate::document::Tileset;
use crate::document::TilesetView;
use crate::geometry::GridPos;
use crate::geometry::Orientation;
use crate::geometry::project_iso;
use crate::geometry::project_ortho;
use crate::geometry::spec_project_iso;
use crate::geometry::spec_project_ortho;
use crate::mesh::Mesh;
use crate::mesh::MeshView;
use crate::mesh::spec_mesh_indices;
use crate::mesh::spec_mesh_positions;
use crate::mesh::spec_mesh_uvs;
use crate::mesh::spec_quad_positions;
use crate::mesh::spec_quad_uvs;
use crate::mesh::spec_quad_indices;
use crate::mesh::spec_base_uv_corners;
use crate::tileset::QuadRect;
use crate::tileset::TileChunk;
use crate::tileset::spec_owns;
use crate::tileset::spec_tile_chunk;
use crate::uv_flip::UvPoint;
use crate::uv_flip::apply_flips;
use crate::gid::FlipFlags;

verus! {

/// Largest chunk edge, in tiles, the builder accepts (machine limit: keeps
/// `4 * tiles` within `u32` mesh indices with a wide margin).
pub const MAX_CHUNK_SIZE: u32 = 1024;

/// One chunk of a (layer, tileset) pair: its chunk-grid position and the
/// resolved tiles of this tileset inside it, in row-major cell order.
pub struct LayerChunk {
    /// Position in the chunk grid (not in tiles).
    pub position: GridPos,
    /// The resolved tiles, row-major by cell.
    pub tiles: Vec<TileChunk>,
}

/// View of [`LayerChunk`].
pub ghost struct LayerChunkView {
    pub position: GridPos,
    pub tiles: Seq<TileChunk>,
}

impl View for LayerChunk {
    type V = LayerChunkView;

    open spec fn view(&self) -> LayerChunkView {
        LayerChunkView { position: self.position, tiles: self.tiles@ }
    }
}

/// All chunks of one (layer, tileset) pair, column by column.
pub struct TilesetLayer {
    /// First gid of the tileset these chunks belong to.
    pub tileset_guid: u32,
    /// The chunk grid, flattened with the chunk column outermost.
    pub chunks: Vec<LayerChunk>,
}

/// View of [`TilesetLayer`].
pub ghost struct TilesetLayerView {
    pub tileset_guid: u32,
    pub chunks: Seq<LayerChunkView>,
}

impl View for TilesetLayer {
    type V = TilesetLayerView;

    open spec fn view(&self) -> TilesetLayerView {
        TilesetLayerView {
            tileset_guid: self.tileset_guid,
            chunks: self.chunks@.map_values(|c: LayerChunk| c@),
        }
    }
}

/// The world-space quad of the tile at grid cell `(gx, gy)`: for an
/// orthogonal map an axis-aligned box of the tileset's tile size whose
/// top-left corner is the projection of the cell; for an isometric map the
/// diamond's bounding box, anchored at the projection on top and centred
/// horizontally.
pub open spec fn spec_tile_quad(
    o: Orientation,
    mtw: int,
    mth: int,
    tsw: int,
    tsh: int,
    gx: int,
    gy: int,
) -> QuadRect
    recommends
        o.spec_supported(),
{
    if o == Orientation::Orthogonal {
        let ax = spec_project_ortho(gx, gy, mtw, mth).0;
        let ay = spec_project_ortho(gx, gy, mtw, mth).1;
        QuadRect {
            left: ax as i64,
            bottom: (ay - 4 * tsh) as i64,
            right: (ax + 4 * tsw) as i64,
            top: ay as i64,
        }
    } else {
        let ax = spec_project_iso(gx, gy, mtw, mth).0;
        let ay = spec_project_iso(gx, gy, mtw, mth).1;
        QuadRect {
            left: (ax - 2 * tsw) as i64,
            bottom: (ay - 4 * tsh) as i64,
            right: (ax + 2 * tsw) as i64,
            top: ay as i64,
        }
    }
}

/// The world-space quad of the tile at grid cell `(gx, gy)`.
fn tile_quad(
    orientation: Orientation,
    map_tw: u32,
    map_th: u32,
    ts_w: u32,
    ts_h: u32,
    gx: u32,
    gy: u32,
) -> (r: QuadRect)
    requires
        orientation.spec_supported(),
        1 <= map_tw <= 4096,
        1 <= map_th <= 4096,
        1 <= ts_w <= 4096,
        1 <= ts_h <= 4096,
        gx <= 0x10_0000,
        gy <= 0x10_0000,
    ensures
        r == spec_tile_quad(
            orientation,
            map_tw as int,
            map_th as int,
            ts_w as int,
            ts_h as int,
            gx as int,
            gy as int,
        ),
{
    let pos = GridPos { x: gx as i64, y: gy as i64 };
    if let Orientation::Orthogonal = orientation {
        let a = project_ortho(pos, map_tw as i64, map_th as i64);
        proof {
            assert(0 <= 4 * (map_tw as int) * (gx as int) <= 0x4000_0000_0000) by (nonlinear_arith)
                requires 1 <= map_tw <= 4096, 0 <= gx <= 0x10_0000;
            assert(0 <= 4 * (map_th as int) * (gy as int) <= 0x4000_0000_0000) by (nonlinear_arith)
                requires 1 <= map_th <= 4096, 0 <= gy <= 0x10_0000;
        }
        QuadRect {
            left: a.x,
            bottom: a.y - 4 * (ts_h as i64),
            right: a.x + 4 * (ts_w as i64),
            top: a.y,
        }
    } else {
        let a = project_iso(pos, map_tw as i64, map_th as i64);
        proof {
            assert(-0x4000_0000_0000 <= 2 * (map_tw as int) * (gx - gy) <= 0x4000_0000_0000)
                by (nonlinear_arith)
                requires 1 <= map_tw <= 4096, 0 <= gx <= 0x10_0000, 0 <= gy <= 0x10_0000;
            assert(-0x4000_0000_0000 <= 2 * (map_th as int) * (gx + gy) <= 0x4000_0000_0000)
                by (nonlinear_arith)
                requires 1 <= map_th <= 4096, 0 <= gx <= 0x10_0000, 0 <= gy <= 0x10_0000;
        }
        QuadRect {
            left: a.x - 2 * (ts_w as i64),
            bottom: a.y - 4 * (ts_h as i64),
            right: a.x + 2 * (ts_w as i64),
            top: a.y,
        }
    }
}

/// The resolved tiles of chunk `(cx, cy)` among its first `k` cells (in
/// row-major order, `chunk_size` cells per row): each cell that lies inside
/// the map and whose gid the tileset owns contributes its resolved tile.
pub open spec fn spec_chunk_tiles(
    grid: Seq<u32>,
    w: int,
    h: int,
    o: Orientation,
    mtw: int,
    mth: int,
    ts: TilesetView,
    cx: int,
    cy: int,
    cs: int,
    k: int,
) -> Seq<TileChunk>
    decreases k,
{
    if k <= 0 {
        seq![]
    } else {
        let prev = spec_chunk_tiles(grid, w, h, o, mtw, mth, ts, cx, cy, cs, k - 1);
        let lx = (k - 1) % cs;
        let ly = (k - 1) / cs;
        let gx = cx * cs + lx;
        let gy = cy * cs + ly;
        if gx < w && gy < h && spec_owns(ts, MapDocumentView::cell(grid, w, gx, gy)) {
            prev.push(
                spec_tile_chunk(
                    ts,
                    MapDocumentView::cell(grid, w, gx, gy),
                    GridPos { x: gx as i64, y: gy as i64 },
                    spec_tile_quad(o, mtw, mth, ts.tile_width as int, ts.tile_height as int, gx, gy),
                ),
            )
        } else {
            prev
        }
    }
}

/// All cells of the chunk, resolved: shorthand for the full cell walk.
pub open spec fn spec_chunk_tiles_full(
    grid: Seq<u32>,
    w: int,
    h: int,
    o: Orientation,
    mtw: int,
    mth: int,
    ts: TilesetView,
    cx: int,
    cy: int,
    cs: int,
) -> Seq<TileChunk> {
    spec_chunk_tiles(grid, w, h, o, mtw, mth, ts, cx, cy, cs, cs * cs)
}

/// Whether the cell `(gx, gy)` contributes a tile for this tileset: it
/// lies inside the map and its gid belongs to the tileset.
pub open spec fn spec_cell_contributes(
    grid: Seq<u32>,
    w: int,
    h: int,
    ts: TilesetView,
    gx: int,
    gy: int,
) -> bool {
    gx < w && gy < h && spec_owns(ts, MapDocumentView::cell(grid, w, gx, gy))
}

/// A chunk walk over its first `k` cells resolves no tile exactly when
/// none of those cells contributes one.
proof fn lemma_chunk_tiles_empty_upto(
    grid: Seq<u32>,
    w: int,
    h: int,
    o: Orientation,
    mtw: int,
    mth: int,
    ts: TilesetView,
    cx: int,
    cy: int,
    cs: int,
    k: int,
)
    requires
        cs >= 1,
    ensures
        spec_chunk_tiles(grid, w, h, o, mtw, mth, ts, cx, cy, cs, k).len() == 0 <==> (forall|m: int|
            0 <= m < k ==> !spec_cell_contributes(
                grid,
                w,
                h,
                ts,
                cx * cs + (#[trigger] (m % cs)),
                cy * cs + m / cs,
            )),
    decreases k,
{
    if k > 0 {
        lemma_chunk_tiles_empty_upto(grid, w, h, o, mtw, mth, ts, cx, cy, cs, k - 1);
    }
}

/// A chunk produces no tile at all exactly when none of its cells lies on
/// an in-bounds map cell owned by the tileset.  Together with
/// [`LayerChunk::build_uv_mesh`], which yields `None` exactly for a chunk
/// without tiles, a chunk whose every cell is empty, out of bounds or
/// owned by another tileset produces no mesh — never an empty one.
pub proof fn lemma_chunk_empty_iff_no_contribution(
    grid: Seq<u32>,
    w: int,
    h: int,
    o: Orientation,
    mtw: int,
    mth: int,
    ts: TilesetView,
    cx: int,
    cy: int,
    cs: int,
)
    requires
        cs >= 1,
    ensures
        spec_chunk_tiles_full(grid, w, h, o, mtw, mth, ts, cx, cy, cs).len() == 0 <==> (forall|
            lx: int,
            ly: int,
        |
            0 <= lx < cs && 0 <= ly < cs ==> !(#[trigger] spec_cell_contributes(
                grid,
                w,
                h,
                ts,
                cx * cs + lx,
                cy * cs + ly,
            ))),
{
    lemma_chunk_tiles_empty_upto(grid, w, h, o, mtw, mth, ts, cx, cy, cs, cs * cs);
    if spec_chunk_tiles_full(grid, w, h, o, mtw, mth, ts, cx, cy, cs).len() == 0 {
        assert forall|lx: int, ly: int|
            0 <= lx < cs && 0 <= ly < cs implies !(#[trigger] spec_cell_contributes(
            grid,
            w,
            h,
            ts,
            cx * cs + lx,
            cy * cs + ly,
        )) by {
            let m = ly * cs + lx;
            assert(0 <= m < cs * cs && m % cs == lx && m / cs == ly) by (nonlinear_arith)
                requires m == ly * cs + lx && 0 <= lx < cs && 0 <= ly < cs && cs >= 1;
            assert(!spec_cell_contributes(grid, w, h, ts, cx * cs + m % cs, cy * cs + m / cs));
        }
    } else {
        let m = choose|m: int|
            0 <= m < cs * cs && spec_cell_contributes(
                grid,
                w,
                h,
                ts,
                cx * cs + (#[trigger] (m % cs)),
                cy * cs + m / cs,
            );
        assert(0 <= m % cs < cs && 0 <= m / cs < cs) by (nonlinear_arith)
            requires 0 <= m < cs * cs && cs >= 1;
    }
}

impl LayerChunk {
    /// Builds the chunk at chunk-grid position `(cx, cy)` for one
    /// (layer, tileset) pair: walks its cells row by row and resolves every
    /// in-bounds cell whose gid the tileset owns, skipping the rest.
    pub fn build(
        grid: &Vec<u32>,
        width: u32,
        height: u32,
        orientation: Orientation,
        map_tw: u32,
        map_th: u32,
        tileset: &Tileset,
        cx: u32,
        cy: u32,
        chunk_size: u32,
    ) -> (r: LayerChunk)
        requires
            orientation.spec_supported(),
            1 <= map_tw <= 4096,
            1 <= map_th <= 4096,
            width <= 0x10_0000,
            height <= 0x10_0000,
            grid@.len() == width * height,
            tileset@.wf(),
            tileset.images.len() >= 1,
            1 <= chunk_size <= MAX_CHUNK_SIZE,
            (cx + 1) * chunk_size <= 0x20_0000,
            (cy + 1) * chunk_size <= 0x20_0000,
        ensures
            r.position == (GridPos { x: cx as i64, y: cy as i64 }),
            r.tiles@ == spec_chunk_tiles_full(
                grid@,
                width as int,
                height as int,
                orientation,
                map_tw as int,
                map_th as int,
                tileset@,
                cx as int,
                cy as int,
                chunk_size as int,
            ),
            r.tiles@.len() <= chunk_size * chunk_size,
    {
        let mut tiles: Vec<TileChunk> = Vec::new();
        proof {
            assert(chunk_size * chunk_size <= 0x10_0000) by (nonlinear_arith)
                requires 1 <= chunk_size <= 1024;
        }
        let total = chunk_size * chunk_size;
        let mut k: u32 = 0;
        while k < total
            invariant
                total == chunk_size * chunk_size,
                k <= total,
                1 <= chunk_size <= MAX_CHUNK_SIZE,
                total <= 0x10_0000,
                orientation.spec_supported(),
                1 <= map_tw <= 4096,
                1 <= map_th <= 4096,
                width <= 0x10_0000,
                height <= 0x10_0000,
                grid@.len() == width * height,
                tileset@.wf(),
                tileset.images.len() >= 1,
                (cx + 1) * chunk_size <= 0x20_0000,
                (cy + 1) * chunk_size <= 0x20_0000,
                tiles@ == spec_chunk_tiles(
                    grid@,
                    width as int,
                    height as int,
                    orientation,
                    map_tw as int,
                    map_th as int,
                    tileset@,
                    cx as int,
                    cy as int,
                    chunk_size as int,
                    k as int,
                ),
                tiles@.len() <= k,
            decreases total - k,
        {
            let lx = k % chunk_size;
            let ly = k / chunk_size;
            proof {
                assert(0 <= (k as int) % (chunk_size as int) < chunk_size) by (nonlinear_arith)
                    requires chunk_size >= 1 && k >= 0;
                assert(0 <= (k as int) / (chunk_size as int) < chunk_size) by (nonlinear_arith)
                    requires chunk_size >= 1 && 0 <= k < chunk_size * chunk_size;
                assert((cx as int) * (chunk_size as int) + lx < 0x20_0000) by (nonlinear_arith)
                    requires
                        (cx + 1) * (chunk_size as int) <= 0x20_0000,
                        0 <= lx < chunk_size,
                        chunk_size >= 1,
                ;
                assert((cy as int) * (chunk_size as int) + ly < 0x20_0000) by (nonlinear_arith)
                    requires
                        (cy + 1) * (chunk_size as int) <= 0x20_0000,
                        0 <= ly < chunk_size,
                        chunk_size >= 1,
                ;
            }
            let gx = cx * chunk_size + lx;
            let gy = cy * chunk_size + ly;
            if gx < width && gy < height {
                let glen: usize = grid.len();
                proof {
                    assert(0 <= (gy as int) * (width as int) && (gy as int) * (width as int) + gx
                        < (height as int) * (width as int)) by (nonlinear_arith)
                        requires 0 <= gx < width && 0 <= gy < height;
                    assert((height as int) * (width as int) == (width as int) * (height as int))
                        by (nonlinear_arith);
                }
                let idx: usize = (gy as usize) * (width as usize) + (gx as usize);
                let cell = grid[idx];
                if tileset.owns(cell) {
                    let quad = tile_quad(
                        orientation,
                        map_tw,
                        map_th,
                        tileset.tile_width,
                        tileset.tile_height,
                        gx,
                        gy,
                    );
                    let tc = crate::tileset::TileChunk::from_layer_and_tileset(
                        cell,
                        tileset,
                        GridPos { x: gx as i64, y: gy as i64 },
                        quad,
                    );
                    tiles.push(tc);
                }
            }
            k = k + 1;
            proof {
                assert(tiles@ =~= spec_chunk_tiles(
                    grid@,
                    width as int,
                    height as int,
                    orientation,
                    map_tw as int,
                    map_th as int,
                    tileset@,
                    cx as int,
                    cy as int,
                    chunk_size as int,
                    k as int,
                ));
            }
        }
        LayerChunk { position: GridPos { x: cx as i64, y: cy as i64 }, tiles }
    }

    /// Builds this chunk's mesh: four vertices, four flip-adjusted texture
    /// corners and six indices per resolved tile.  A chunk without a single
    /// resolved tile yields `None` — no empty mesh is ever emitted.
    pub fn build_uv_mesh(&self, tileset: &Tileset) -> (r: Option<Mesh>)
        requires
            self.tiles@.len() <= 0x10_0000,
            tileset.images.len() >= 1,
        ensures
            match r {
                Some(m) => self.tiles@.len() > 0 && m@ == (MeshView {
                    positions: spec_mesh_positions(self.tiles@),
                    uvs: spec_mesh_uvs(self.tiles@),
                    indices: spec_mesh_indices(self.tiles@),
                    sheet_w: tileset.images[0].width,
                    sheet_h: tileset.images[0].height,
                }),
                None => self.tiles@.len() == 0,
            },
    {
        if self.tiles.len() == 0 {
            return None;
        }
        let n = self.tiles.len();
        let mut positions: Vec<crate::mesh::Vertex> = Vec::new();
        let mut uvs: Vec<UvPoint> = Vec::new();
        let mut indices: Vec<u32> = Vec::new();
        let mut i: usize = 0;
        while i < n
            invariant
                n == self.tiles@.len(),
                n <= 0x10_0000,
                i <= n,
                positions@ == spec_mesh_positions(self.tiles@.take(i as int)),
                uvs@ == spec_mesh_uvs(self.tiles@.take(i as int)),
                indices@ == spec_mesh_indices(self.tiles@.take(i as int)),
            decreases n - i,
        {
            let t = self.tiles[i];
            let base: u32 = 4 * (i as u32);
            positions.push(crate::mesh::Vertex { x: t.vertex.left, y: t.vertex.bottom, z: 0 });
            positions.push(crate::mesh::Vertex { x: t.vertex.left, y: t.vertex.top, z: 0 });
            positions.push(crate::mesh::Vertex { x: t.vertex.right, y: t.vertex.top, z: 0 });
            positions.push(crate::mesh::Vertex { x: t.vertex.right, y: t.vertex.bottom, z: 0 });
            let c0 = UvPoint { u: t.uv.u_min, v: t.uv.v_max };
            let c1 = UvPoint { u: t.uv.u_min, v: t.uv.v_min };
            let c2 = UvPoint { u: t.uv.u_max, v: t.uv.v_min };
            let c3 = UvPoint { u: t.uv.u_max, v: t.uv.v_max };
            let f = FlipFlags { flip_h: t.flip_h, flip_v: t.flip_v, flip_d: t.flip_d };
            let (u0, u1, u2, u3) = apply_flips(c0, c1, c2, c3, f);
            uvs.push(u0);
            uvs.push(u1);
            uvs.push(u2);
            uvs.push(u3);
            indices.push(base);
            indices.push(base + 2);
            indices.push(base + 1);
            indices.push(base);
            indices.push(base + 3);
            indices.push(base + 2);
            i = i + 1;
            proof {
                let tiles = self.tiles@;
                let prefix = tiles.take(i as int);
                assert(prefix.drop_last() =~= tiles.take(i - 1));
                assert(prefix.last() == t);
                assert(seq![c0, c1, c2, c3] =~= spec_base_uv_corners(t));
                crate::mesh::lemma_mesh_counts(tiles.take(i - 1));
                assert(positions@ =~= spec_mesh_positions(tiles.take(i - 1))
                    + spec_quad_positions(t));
                assert(uvs@ =~= spec_mesh_uvs(tiles.take(i - 1)) + spec_quad_uvs(t));
                assert(indices@ =~= spec_mesh_indices(tiles.take(i - 1)) + spec_quad_indices(
                    (4 * (i - 1)) as u32,
                ));
            }
        }
        proof {
            assert(self.tiles@.take(n as int) =~= self.tiles@);
        }
        Some(
            Mesh {
                positions,
                uvs,
                indices,
                sheet_w: tileset.images[0].width,
                sheet_h: tileset.images[0].height,
            },
        )
    }
}

/// Number of chunks along one axis: `len` cells split into groups of
/// `cs`, the last group possibly partial.
pub open spec fn spec_chunk_count(len: int, cs: int) -> int
    recommends
        cs >= 1,
{
    (len + cs - 1) / cs
}

/// The chunk list of one (layer, tileset) pair, first `j` chunks, chunk
/// column outermost.
pub open spec fn spec_layer_chunks(
    grid: Seq<u32>,
    w: int,
    h: int,
    o: Orientation,
    mtw: int,
    mth: int,
    ts: TilesetView,
    cs: int,
    j: int,
) -> Seq<LayerChunkView>
    decreases j,
{
    if j <= 0 {
        seq![]
    } else {
        let ncy = spec_chunk_count(h, cs);
        let cx = (j - 1) / ncy;
        let cy = (j - 1) % ncy;
        spec_layer_chunks(grid, w, h, o, mtw, mth, ts, cs, j - 1).push(
            LayerChunkView {
                position: GridPos { x: cx as i64, y: cy as i64 },
                tiles: spec_chunk_tiles_full(grid, w, h, o, mtw, mth, ts, cx, cy, cs),
            },
        )
    }
}

impl TilesetLayer {
    /// Builds every chunk of one (layer, tileset) pair: the chunk grid
    /// covers the whole map, `ceil(width / chunk_size)` chunk columns by
    /// `ceil(height / chunk_size)` chunk rows, walked column by column.
    pub fn new(
        grid: &Vec<u32>,
        width: u32,
        height: u32,
        orientation: Orientation,
        map_tw: u32,
        map_th: u32,
        tileset: &Tileset,
        chunk_size: u32,
    ) -> (r: TilesetLayer)
        requires
            orientation.spec_supported(),
            1 <= map_tw <= 4096,
            1 <= map_th <= 4096,
            width <= 0x10_0000,
            height <= 0x10_0000,
            grid@.len() == width * height,
            tileset@.wf(),
            tileset.images.len() >= 1,
            1 <= chunk_size <= MAX_CHUNK_SIZE,
        ensures
            r.tileset_guid == tileset.first_gid,
            r@.chunks == spec_layer_chunks(
                grid@,
                width as int,
                height as int,
                orientation,
                map_tw as int,
                map_th as int,
                tileset@,
                chunk_size as int,
                spec_chunk_count(width as int, chunk_size as int) * spec_chunk_count(
                    height as int,
                    chunk_size as int,
                ),
            ),
    {
        let ncx: u32 = (width + chunk_size - 1) / chunk_size;
        let ncy: u32 = (height + chunk_size - 1) / chunk_size;
        proof {
            assert(ncx as int == spec_chunk_count(width as int, chunk_size as int));
            assert(ncy as int == spec_chunk_count(height as int, chunk_size as int));
            assert(ncx <= 0x10_0400) by (nonlinear_arith)
                requires
                    ncx == (width + chunk_size - 1) / (chunk_size as int),
                    1 <= chunk_size <= 1024,
                    width <= 0x10_0000,
            ;
            assert(ncy <= 0x10_0400) by (nonlinear_arith)
                requires
                    ncy == (height + chunk_size - 1) / (chunk_size as int),
                    1 <= chunk_size <= 1024,
                    height <= 0x10_0000,
            ;
            assert((ncx as int) * (ncy as int) <= 0x200_0000_0000) by (nonlinear_arith)
                requires 0 <= ncx <= 0x10_0400 && 0 <= ncy <= 0x10_0400;
        }
        let total: u64 = (ncx as u64) * (ncy as u64);
        let mut chunks: Vec<LayerChunk> = Vec::new();
        let mut j: u64 = 0;
        while j < total
            invariant
                total == (ncx as int) * (ncy as int),
                ncx as int == spec_chunk_count(width as int, chunk_size as int),
                ncy as int == spec_chunk_count(height as int, chunk_size as int),
                j <= total,
                orientation.spec_supported(),
                1 <= map_tw <= 4096,
                1 <= map_th <= 4096,
                width <= 0x10_0000,
                height <= 0x10_0000,
                grid@.len() == width * height,
                tileset@.wf(),
                tileset.images.len() >= 1,
                1 <= chunk_size <= MAX_CHUNK_SIZE,
                chunks@.map_values(|c: LayerChunk| c@) == spec_layer_chunks(
                    grid@,
                    width as int,
                    height as int,
                    orientation,
                    map_tw as int,
                    map_th as int,
                    tileset@,
                    chunk_size as int,
                    j as int,
                ),
            decreases total - j,
        {
            proof {
                assert(ncy >= 1);
                assert((j as int) / (ncy as int) < ncx) by (nonlinear_arith)
                    requires ncy >= 1 && 0 <= j < (ncx as int) * (ncy as int);
                assert(0 <= (j as int) % (ncy as int) < ncy) by (nonlinear_arith)
                    requires ncy >= 1 && j >= 0;
            }
            let cx: u32 = (j / (ncy as u64)) as u32;
            let cy: u32 = (j % (ncy as u64)) as u32;
            proof {
                assert((cx + 1) * (chunk_size as int) <= 0x20_0000) by (nonlinear_arith)
                    requires
                        0 <= cx < (width + chunk_size - 1) / (chunk_size as int),
                        1 <= chunk_size <= 1024,
                        width <= 0x10_0000,
                ;
                assert((cy + 1) * (chunk_size as int) <= 0x20_0000) by (nonlinear_arith)
                    requires
                        0 <= cy < (height + chunk_size - 1) / (chunk_size as int),
                        1 <= chunk_size <= 1024,
                        height <= 0x10_0000,
                ;
            }
            let chunk = LayerChunk::build(
                grid,
                width,
                height,
                orientation,
                map_tw,
                map_th,
                tileset,
                cx,
                cy,
                chunk_size,
            );
            chunks.push(chunk);
            j = j + 1;
            proof {
                assert(chunks@.map_values(|c: LayerChunk| c@) =~= spec_layer_chunks(
                    grid@,
                    width as int,
                    height as int,
                    orientation,
                    map_tw as int,
                    map_th as int,
                    tileset@,
                    chunk_size as int,
                    j as int,
                ));
            }
        }
        TilesetLayer { tileset_guid: tileset.first_gid, chunks }
    }
}

} // verus!
