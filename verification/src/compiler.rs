//! Map compiler: turns a parsed map document into tagged chunk meshes,
//! per-layer chunk metadata, resolved object groups and the list of sheet
//! images the host must load.
//!
//! The compiler validates first and never returns a partial map: an
//! unsupported orientation, a tileset without an image, overlapping tileset
//! gid ranges or an infinite layer fail the whole compile.  After
//! validation it walks every visible layer crossed with every tileset,
//! builds the chunk grid and one mesh per non-empty chunk, and resolves
//! every object group.  Everything it produces is an exact function of the
//! document, so recompiling an unchanged document reproduces the output
//! bit for bit.

use vstd::prelude::*;

use crate::chunk::LayerChunkView;
use crate::chunk::MAX_CHUNK_SIZE;
use crate::chunk::TilesetLayer;
use crate::chunk::TilesetLayerView;
use crate::chunk::spec_cell_contributes;
use crate::chunk::spec_chunk_count;
use crate::chunk::spec_chunk_tiles;
use crate::chunk::spec_chunk_tiles_full;
use crate::chunk::spec_layer_chunks;
use crate::document::LayerDataView;
use crate::document::MapDocument;
use crate::document::MapDocumentView;
use crate::document::Tileset;
use crate::document::TilesetView;
use crate::geometry::GridPos;
use crate::geometry::Orientation;
use crate::geometry::WorldPos;
use crate::geometry::map_center;
use crate::document::RawObjectGroupView;
use crate::mesh::TaggedMesh;
use crate::mesh::MeshView;
use crate::mesh::TaggedMeshView;
use crate::mesh::spec_mesh_indices;
use crate::mesh::spec_mesh_positions;
use crate::mesh::spec_mesh_uvs;
use crate::objects::ObjectGroup;
use crate::objects::ObjectGroupView;
use crate::objects::spec_object_group;

verus! {

/// Why a compile failed.  Compilation is all or nothing: any of these
/// fails the whole load, and no partial map is ever returned.
#[derive(Clone, Copy, PartialEq, Eq, Structural, Debug)]
pub enum CompileError {
    /// The map orientation is neither orthogonal nor isometric.
    UnsupportedOrientation,
    /// A tileset declares no sheet image.
    TilesetWithoutImage,
    /// Two tilesets' gid ranges overlap, so gid resolution would be
    /// ambiguous.
    OverlappingGidRanges,
    /// A layer uses the infinite (chunked, streamed) representation.
    InfiniteLayer,
}

/// Compile options.
pub struct MapConfig {
    /// Tiles per chunk edge.
    pub chunk_size: u32,
}

impl Default for MapConfig {
    /// The default chunk edge is 32 tiles.
    fn default() -> (r: Self)
        ensures
            r.chunk_size == 32,
    {
        MapConfig { chunk_size: 32 }
    }
}

/// Whether the map should be centred on the origin when spawned (host
/// option; the compiler's [`CompiledMap::center`] supplies the offset).
#[derive(Clone, Copy, PartialEq, Eq, Structural, Debug)]
pub struct TiledMapCenter(pub bool);

/// Debug visualisation options for shape objects: whether placeholder
/// quads are shown, and the host's material id for them.
#[derive(Clone, Copy, PartialEq, Eq, Structural, Debug)]
pub struct DebugConfig {
    pub enabled: bool,
    pub material: Option<u64>,
}

impl Default for DebugConfig {
    /// Debug visualisation starts disabled, with no material chosen.
    fn default() -> (r: Self)
        ensures
            r.enabled == false,
            r.material is None,
    {
        DebugConfig { enabled: false, material: None }
    }
}

// --- validation ----------------------------------------------------------

/// Whether two tilesets' gid ranges share a gid.
pub open spec fn spec_ranges_overlap(a: TilesetView, b: TilesetView) -> bool {
    a.first_gid < b.first_gid + b.tile_count && b.first_gid < a.first_gid + a.tile_count
}

/// Whether some tileset declares no sheet image.
pub open spec fn spec_has_imageless_tileset(d: MapDocumentView) -> bool {
    exists|i: int| 0 <= i < d.tilesets.len() && (#[trigger] d.tilesets[i]).images.len() == 0
}

/// Whether some two tilesets' gid ranges overlap.
pub open spec fn spec_has_overlapping_ranges(d: MapDocumentView) -> bool {
    exists|i: int, j: int|
        0 <= i < j < d.tilesets.len() && spec_ranges_overlap(
            #[trigger] d.tilesets[i],
            #[trigger] d.tilesets[j],
        )
}

/// Whether some layer uses the infinite representation.
pub open spec fn spec_has_infinite_layer(d: MapDocumentView) -> bool {
    exists|i: int| 0 <= i < d.layers.len() && (#[trigger] d.layers[i]).data is Infinite
}

/// The error a compile of this document reports, if any: the checks run
/// in a fixed order — orientation, tileset images, gid ranges, layer
/// representation — and the first failing one names the error.
pub open spec fn spec_first_error(d: MapDocumentView) -> Option<CompileError> {
    if !d.orientation.spec_supported() {
        Some(CompileError::UnsupportedOrientation)
    } else if spec_has_imageless_tileset(d) {
        Some(CompileError::TilesetWithoutImage)
    } else if spec_has_overlapping_ranges(d) {
        Some(CompileError::OverlappingGidRanges)
    } else if spec_has_infinite_layer(d) {
        Some(CompileError::InfiniteLayer)
    } else {
        None
    }
}

// --- mesh assembly, specified --------------------------------------------

/// The tagged meshes of one (layer, tileset) pair, first `j` chunks: every
/// chunk with at least one resolved tile contributes one mesh, tagged with
/// the layer id and the tileset's first gid; empty chunks contribute
/// nothing.
pub open spec fn spec_tileset_layer_meshes(
    grid: Seq<u32>,
    w: int,
    h: int,
    o: Orientation,
    mtw: int,
    mth: int,
    ts: TilesetView,
    layer_id: u32,
    cs: int,
    j: int,
) -> Seq<TaggedMeshView>
    decreases j,
{
    if j <= 0 {
        seq![]
    } else {
        let prev = spec_tileset_layer_meshes(grid, w, h, o, mtw, mth, ts, layer_id, cs, j - 1);
        let ncy = spec_chunk_count(h, cs);
        let cx = (j - 1) / ncy;
        let cy = (j - 1) % ncy;
        let tiles = spec_chunk_tiles_full(grid, w, h, o, mtw, mth, ts, cx, cy, cs);
        if tiles.len() == 0 {
            prev
        } else {
            prev.push(
                TaggedMeshView {
                    layer_id,
                    tileset_guid: ts.first_gid,
                    mesh: MeshView {
                        positions: spec_mesh_positions(tiles),
                        uvs: spec_mesh_uvs(tiles),
                        indices: spec_mesh_indices(tiles),
                        sheet_w: ts.images[0].width,
                        sheet_h: ts.images[0].height,
                    },
                },
            )
        }
    }
}

/// The tagged meshes of one visible layer, first `t` tilesets, in tileset
/// order.
pub open spec fn spec_layer_meshes(
    d: MapDocumentView,
    grid: Seq<u32>,
    layer_id: u32,
    cs: int,
    t: int,
) -> Seq<TaggedMeshView>
    decreases t,
{
    if t <= 0 {
        seq![]
    } else {
        spec_layer_meshes(d, grid, layer_id, cs, t - 1) + spec_tileset_layer_meshes(
            grid,
            d.width as int,
            d.height as int,
            d.orientation,
            d.tile_width as int,
            d.tile_height as int,
            d.tilesets[t - 1],
            layer_id,
            cs,
            spec_chunk_count(d.width as int, cs) * spec_chunk_count(d.height as int, cs),
        )
    }
}

/// The chunk grids of one visible layer, one per tileset.
pub open spec fn spec_layer_tileset_layers(
    d: MapDocumentView,
    grid: Seq<u32>,
    cs: int,
    t: int,
) -> Seq<TilesetLayerView>
    decreases t,
{
    if t <= 0 {
        seq![]
    } else {
        spec_layer_tileset_layers(d, grid, cs, t - 1).push(
            TilesetLayerView {
                tileset_guid: d.tilesets[t - 1].first_gid,
                chunks: spec_layer_chunks(
                    grid,
                    d.width as int,
                    d.height as int,
                    d.orientation,
                    d.tile_width as int,
                    d.tile_height as int,
                    d.tilesets[t - 1],
                    cs,
                    spec_chunk_count(d.width as int, cs) * spec_chunk_count(d.height as int, cs),
                ),
            },
        )
    }
}

/// The sheet image paths one visible layer depends on, one per tileset.
pub open spec fn spec_layer_deps(d: MapDocumentView, t: int) -> Seq<String>
    decreases t,
{
    if t <= 0 {
        seq![]
    } else {
        spec_layer_deps(d, t - 1).push(d.tilesets[t - 1].images[0].source)
    }
}

/// How many of the first `l` layers are visible finite layers — the
/// compacted layer id of the next visible layer.
pub open spec fn spec_visible_count(d: MapDocumentView, l: int) -> int
    decreases l,
{
    if l <= 0 {
        0
    } else {
        spec_visible_count(d, l - 1) + (
        if d.layers[l - 1].visible && d.layers[l - 1].data is Finite {
            1int
        } else {
            0int
        })
    }
}

/// All tagged meshes of the map, first `l` layers: invisible and
/// non-finite layers contribute nothing, each visible layer contributes
/// its meshes tagged with its compacted layer id.
pub open spec fn spec_map_meshes(d: MapDocumentView, cs: int, l: int) -> Seq<TaggedMeshView>
    decreases l,
{
    if l <= 0 {
        seq![]
    } else {
        let prev = spec_map_meshes(d, cs, l - 1);
        match d.layers[l - 1].data {
            LayerDataView::Finite(grid) => if d.layers[l - 1].visible {
                prev + spec_layer_meshes(
                    d,
                    grid,
                    spec_visible_count(d, l - 1) as u32,
                    cs,
                    d.tilesets.len() as int,
                )
            } else {
                prev
            },
            LayerDataView::Infinite => prev,
        }
    }
}

/// The per-layer chunk metadata of the map, one entry per visible layer.
pub open spec fn spec_map_layers(d: MapDocumentView, cs: int, l: int) -> Seq<MapLayerView>
    decreases l,
{
    if l <= 0 {
        seq![]
    } else {
        let prev = spec_map_layers(d, cs, l - 1);
        match d.layers[l - 1].data {
            LayerDataView::Finite(grid) => if d.layers[l - 1].visible {
                prev.push(
                    MapLayerView {
                        tileset_layers: spec_layer_tileset_layers(
                            d,
                            grid,
                            cs,
                            d.tilesets.len() as int,
                        ),
                    },
                )
            } else {
                prev
            },
            LayerDataView::Infinite => prev,
        }
    }
}

/// The sheet image paths of the map, per visible layer and tileset, in
/// walk order (duplicates kept, as the host dedups by path).
pub open spec fn spec_asset_deps(d: MapDocumentView, l: int) -> Seq<String>
    decreases l,
{
    if l <= 0 {
        seq![]
    } else {
        let prev = spec_asset_deps(d, l - 1);
        match d.layers[l - 1].data {
            LayerDataView::Finite(grid) => if d.layers[l - 1].visible {
                prev + spec_layer_deps(d, d.tilesets.len() as int)
            } else {
                prev
            },
            LayerDataView::Infinite => prev,
        }
    }
}

/// The resolved object groups of the map.
pub open spec fn spec_map_groups(d: MapDocumentView) -> Seq<ObjectGroupView> {
    d.object_groups.map_values(|g: RawObjectGroupView| spec_object_group(g, d.tilesets))
}

// --- the compiled map ----------------------------------------------------

/// The chunk metadata of one visible layer: one chunk grid per tileset.
pub struct MapLayer {
    pub tileset_layers: Vec<TilesetLayer>,
}

/// View of [`MapLayer`].
pub ghost struct MapLayerView {
    pub tileset_layers: Seq<TilesetLayerView>,
}

impl View for MapLayer {
    type V = MapLayerView;

    open spec fn view(&self) -> MapLayerView {
        MapLayerView { tileset_layers: self.tileset_layers@.map_values(|t: TilesetLayer| t@) }
    }
}

/// A compiled map: everything the host needs to spawn it.
pub struct CompiledMap {
    pub orientation: Orientation,
    /// Map size in tiles.
    pub width: u32,
    pub height: u32,
    /// Grid tile size in pixels.
    pub tile_width: u32,
    pub tile_height: u32,
    /// Tiles per chunk edge used by this compile.
    pub chunk_size: u32,
    /// One mesh per non-empty chunk, tagged with (layer id, tileset first
    /// gid) — the stable keys for material binding and reload despawning.
    pub meshes: Vec<TaggedMesh>,
    /// Per-layer chunk metadata, one entry per visible layer.
    pub layers: Vec<MapLayer>,
    /// Resolved object groups.
    pub groups: Vec<ObjectGroup>,
    /// Sheet images to load before the map is ready, relative to the map
    /// file.
    pub asset_dependencies: Vec<String>,
}

/// View of [`CompiledMap`].
pub ghost struct CompiledMapView {
    pub orientation: Orientation,
    pub width: u32,
    pub height: u32,
    pub tile_width: u32,
    pub tile_height: u32,
    pub chunk_size: u32,
    pub meshes: Seq<TaggedMeshView>,
    pub layers: Seq<MapLayerView>,
    pub groups: Seq<ObjectGroupView>,
    pub asset_dependencies: Seq<String>,
}

impl View for CompiledMap {
    type V = CompiledMapView;

    open spec fn view(&self) -> CompiledMapView {
        CompiledMapView {
            orientation: self.orientation,
            width: self.width,
            height: self.height,
            tile_width: self.tile_width,
            tile_height: self.tile_height,
            chunk_size: self.chunk_size,
            meshes: self.meshes@.map_values(|m: TaggedMesh| m@),
            layers: self.layers@.map_values(|l: MapLayer| l@),
            groups: self.groups@.map_values(|g: ObjectGroup| g@),
            asset_dependencies: self.asset_dependencies@,
        }
    }
}

impl CompiledMapView {
    /// Bounds every compiled map obeys: a supported orientation and the
    /// document's dimension limits.
    pub open spec fn wf(self) -> bool {
        &&& self.orientation.spec_supported()
        &&& self.width <= crate::geometry::MAX_GRID
        &&& self.height <= crate::geometry::MAX_GRID
        &&& 1 <= self.tile_width <= crate::geometry::MAX_TILE_DIM
        &&& 1 <= self.tile_height <= crate::geometry::MAX_TILE_DIM
    }
}

/// Compilation is deterministic: equal documents compiled with the same
/// chunk size validate alike and yield equal meshes, layers, groups and
/// dependency lists.  Since [`CompiledMap::try_from_document`] pins its
/// result to exactly these functions of the document, compiling the same
/// input twice reproduces the output bit for bit.
pub proof fn lemma_compile_deterministic(d1: MapDocumentView, d2: MapDocumentView, cs: int)
    requires
        d1 == d2,
    ensures
        spec_first_error(d1) == spec_first_error(d2),
        spec_map_meshes(d1, cs, d1.layers.len() as int) == spec_map_meshes(
            d2,
            cs,
            d2.layers.len() as int,
        ),
        spec_map_layers(d1, cs, d1.layers.len() as int) == spec_map_layers(
            d2,
            cs,
            d2.layers.len() as int,
        ),
        spec_map_groups(d1) == spec_map_groups(d2),
        spec_asset_deps(d1, d1.layers.len() as int) == spec_asset_deps(
            d2,
            d2.layers.len() as int,
        ),
{
}

// --- supporting lemmas ---------------------------------------------------

/// A chunk walk over `k` cells resolves at most `k` tiles.
pub proof fn lemma_chunk_tiles_len(
    grid: Seq<u32>,
    w: int,
    h: int,
    o: Orientation,
    mtw: int,
    mth: int,
    ts: TilesetView,
    cx: int,
    cy: int,
    cs: int,
    k: int,
)
    ensures
        spec_chunk_tiles(grid, w, h, o, mtw, mth, ts, cx, cy, cs, k).len() <= (
        if k >= 0 {
            k
        } else {
            0
        }),
    decreases k,
{
    if k > 0 {
        lemma_chunk_tiles_len(grid, w, h, o, mtw, mth, ts, cx, cy, cs, k - 1);
    }
}

/// The chunk list over `n` chunk indices has exactly `n` entries.
pub proof fn lemma_layer_chunks_len(
    grid: Seq<u32>,
    w: int,
    h: int,
    o: Orientation,
    mtw: int,
    mth: int,
    ts: TilesetView,
    cs: int,
    n: int,
)
    ensures
        spec_layer_chunks(grid, w, h, o, mtw, mth, ts, cs, n).len() == (
        if n >= 0 {
            n
        } else {
            0
        }),
    decreases n,
{
    if n > 0 {
        lemma_layer_chunks_len(grid, w, h, o, mtw, mth, ts, cs, n - 1);
    }
}

/// Entry `j` of the chunk list is the chunk at column `j / ncy`, row
/// `j % ncy`.
pub proof fn lemma_layer_chunks_index(
    grid: Seq<u32>,
    w: int,
    h: int,
    o: Orientation,
    mtw: int,
    mth: int,
    ts: TilesetView,
    cs: int,
    n: int,
    j: int,
)
    requires
        0 <= j < n,
    ensures
        spec_layer_chunks(grid, w, h, o, mtw, mth, ts, cs, n)[j] == (LayerChunkView {
            position: GridPos {
                x: (j / spec_chunk_count(h, cs)) as i64,
                y: (j % spec_chunk_count(h, cs)) as i64,
            },
            tiles: spec_chunk_tiles_full(
                grid,
                w,
                h,
                o,
                mtw,
                mth,
                ts,
                j / spec_chunk_count(h, cs),
                j % spec_chunk_count(h, cs),
                cs,
            ),
        }),
    decreases n,
{
    lemma_layer_chunks_len(grid, w, h, o, mtw, mth, ts, cs, n - 1);
    if j < n - 1 {
        lemma_layer_chunks_index(grid, w, h, o, mtw, mth, ts, cs, n - 1, j);
    }
}

/// No more of the first `l` layers can be visible than there are layers.
pub proof fn lemma_visible_count_bound(d: MapDocumentView, l: int)
    requires
        l >= 0,
    ensures
        0 <= spec_visible_count(d, l) <= l,
    decreases l,
{
    if l > 0 {
        lemma_visible_count_bound(d, l - 1);
    }
}

/// Walking the first `j` chunks collects no mesh while the single
/// populated chunk `j0` has not been passed, and exactly its mesh
/// afterwards.
proof fn lemma_single_chunk_walk(
    grid: Seq<u32>,
    w: int,
    h: int,
    o: Orientation,
    mtw: int,
    mth: int,
    ts: TilesetView,
    layer_id: u32,
    cs: int,
    cx0: int,
    cy0: int,
    j: int,
)
    requires
        cs >= 1,
        0 <= cx0 < spec_chunk_count(w, cs),
        0 <= cy0 < spec_chunk_count(h, cs),
        forall|gx: int, gy: int|
            0 <= gx && 0 <= gy && #[trigger] spec_cell_contributes(grid, w, h, ts, gx, gy)
                ==> gx / cs == cx0 && gy / cs == cy0,
        spec_chunk_tiles_full(grid, w, h, o, mtw, mth, ts, cx0, cy0, cs).len() > 0,
        0 <= j <= spec_chunk_count(w, cs) * spec_chunk_count(h, cs),
    ensures
        ({
            let j0 = cx0 * spec_chunk_count(h, cs) + cy0;
            let meshes = spec_tileset_layer_meshes(grid, w, h, o, mtw, mth, ts, layer_id, cs, j);
            if j <= j0 {
                meshes.len() == 0
            } else {
                meshes =~= seq![
                    TaggedMeshView {
                        layer_id,
                        tileset_guid: ts.first_gid,
                        mesh: MeshView {
                            positions: spec_mesh_positions(
                                spec_chunk_tiles_full(grid, w, h, o, mtw, mth, ts, cx0, cy0, cs),
                            ),
                            uvs: spec_mesh_uvs(
                                spec_chunk_tiles_full(grid, w, h, o, mtw, mth, ts, cx0, cy0, cs),
                            ),
                            indices: spec_mesh_indices(
                                spec_chunk_tiles_full(grid, w, h, o, mtw, mth, ts, cx0, cy0, cs),
                            ),
                            sheet_w: ts.images[0].width,
                            sheet_h: ts.images[0].height,
                        },
                    },
                ]
            }
        }),
    decreases j,
{
    let ncy = spec_chunk_count(h, cs);
    let j0 = cx0 * ncy + cy0;
    assert(0 <= j0 < spec_chunk_count(w, cs) * ncy && j0 / ncy == cx0 && j0 % ncy == cy0)
        by (nonlinear_arith)
        requires
            j0 == cx0 * ncy + cy0,
            0 <= cx0 < spec_chunk_count(w, cs),
            0 <= cy0 < ncy,
    ;
    if j > 0 {
        lemma_single_chunk_walk(grid, w, h, o, mtw, mth, ts, layer_id, cs, cx0, cy0, j - 1);
        let cx = (j - 1) / ncy;
        let cy = (j - 1) % ncy;
        if j - 1 == j0 {
            assert(cx == cx0 && cy == cy0);
        } else {
            assert(cx != cx0 || cy != cy0) by (nonlinear_arith)
                requires
                    cx == (j - 1) / ncy,
                    cy == (j - 1) % ncy,
                    j0 == cx0 * ncy + cy0,
                    j - 1 != j0,
                    ncy >= 1,
                    j - 1 >= 0,
                    0 <= cy0 < ncy,
            ;
            crate::chunk::lemma_chunk_empty_iff_no_contribution(
                grid,
                w,
                h,
                o,
                mtw,
                mth,
                ts,
                cx,
                cy,
                cs,
            );
            assert forall|lx: int, ly: int|
                0 <= lx < cs && 0 <= ly < cs implies !(#[trigger] spec_cell_contributes(
                grid,
                w,
                h,
                ts,
                cx * cs + lx,
                cy * cs + ly,
            )) by {
                if spec_cell_contributes(grid, w, h, ts, cx * cs + lx, cy * cs + ly) {
                    assert(cx * cs + lx >= 0 && cy * cs + ly >= 0) by (nonlinear_arith)
                        requires cx >= 0 && cy >= 0 && cs >= 1 && 0 <= lx && 0 <= ly;
                    assert((cx * cs + lx) / cs == cx && (cy * cs + ly) / cs == cy)
                        by (nonlinear_arith)
                        requires 0 <= lx < cs && 0 <= ly < cs && cs >= 1 && cx >= 0 && cy >= 0;
                }
            }
        }
    }
}

/// A layer whose every contributing cell lies inside one chunk produces
/// exactly one chunk mesh for that tileset, holding four vertices, four
/// texture corners and six indices per contributing tile.  (A region small
/// enough to fit a chunk but straddling a chunk boundary populates more
/// than one chunk; the hypothesis places it within one.)
pub proof fn lemma_single_populated_chunk(
    grid: Seq<u32>,
    w: int,
    h: int,
    o: Orientation,
    mtw: int,
    mth: int,
    ts: TilesetView,
    layer_id: u32,
    cs: int,
    cx0: int,
    cy0: int,
)
    requires
        cs >= 1,
        0 <= cx0 < spec_chunk_count(w, cs),
        0 <= cy0 < spec_chunk_count(h, cs),
        forall|gx: int, gy: int|
            0 <= gx && 0 <= gy && #[trigger] spec_cell_contributes(grid, w, h, ts, gx, gy)
                ==> gx / cs == cx0 && gy / cs == cy0,
        exists|gx: int, gy: int|
            0 <= gx && 0 <= gy && #[trigger] spec_cell_contributes(grid, w, h, ts, gx, gy),
    ensures
        ({
            let meshes = spec_tileset_layer_meshes(
                grid,
                w,
                h,
                o,
                mtw,
                mth,
                ts,
                layer_id,
                cs,
                spec_chunk_count(w, cs) * spec_chunk_count(h, cs),
            );
            let tiles = spec_chunk_tiles_full(grid, w, h, o, mtw, mth, ts, cx0, cy0, cs);
            &&& meshes.len() == 1
            &&& meshes[0].layer_id == layer_id
            &&& meshes[0].tileset_guid == ts.first_gid
            &&& meshes[0].mesh.positions.len() == 4 * tiles.len()
            &&& meshes[0].mesh.uvs.len() == 4 * tiles.len()
            &&& meshes[0].mesh.indices.len() == 6 * tiles.len()
        }),
{
    let ncy = spec_chunk_count(h, cs);
    let tiles = spec_chunk_tiles_full(grid, w, h, o, mtw, mth, ts, cx0, cy0, cs);
    let (gx, gy) = choose|gx: int, gy: int|
        0 <= gx && 0 <= gy && #[trigger] spec_cell_contributes(grid, w, h, ts, gx, gy);
    assert(gx / cs == cx0 && gy / cs == cy0);
    let lx = gx - cx0 * cs;
    let ly = gy - cy0 * cs;
    assert(0 <= lx < cs && 0 <= ly < cs && gx == cx0 * cs + lx && gy == cy0 * cs + ly)
        by (nonlinear_arith)
        requires
            lx == gx - cx0 * cs,
            ly == gy - cy0 * cs,
            gx / cs == cx0,
            gy / cs == cy0,
            cs >= 1,
            gx >= 0,
            gy >= 0,
    ;
    crate::chunk::lemma_chunk_empty_iff_no_contribution(grid, w, h, o, mtw, mth, ts, cx0, cy0, cs);
    assert(tiles.len() > 0);
    assert(0 <= cx0 * ncy + cy0 < spec_chunk_count(w, cs) * ncy) by (nonlinear_arith)
        requires 0 <= cx0 < spec_chunk_count(w, cs) && 0 <= cy0 < ncy;
    lemma_single_chunk_walk(
        grid,
        w,
        h,
        o,
        mtw,
        mth,
        ts,
        layer_id,
        cs,
        cx0,
        cy0,
        spec_chunk_count(w, cs) * ncy,
    );
    crate::mesh::lemma_mesh_counts(tiles);
}

// --- mesh collection -----------------------------------------------------

/// Builds the mesh of every non-empty chunk of one (layer, tileset) pair
/// and appends them, tagged, to `meshes`.
fn collect_tileset_layer_meshes(
    tl: &TilesetLayer,
    tileset: &Tileset,
    layer_id: u32,
    chunk_size: u32,
    width: u32,
    height: u32,
    orientation: Orientation,
    map_tw: u32,
    map_th: u32,
    grid: &Vec<u32>,
    meshes: &mut Vec<TaggedMesh>,
)
    requires
        tileset.images.len() >= 1,
        1 <= chunk_size <= MAX_CHUNK_SIZE,
        tl.tileset_guid == tileset.first_gid,
        tl@.chunks == spec_layer_chunks(
            grid@,
            width as int,
            height as int,
            orientation,
            map_tw as int,
            map_th as int,
            tileset@,
            chunk_size as int,
            spec_chunk_count(width as int, chunk_size as int) * spec_chunk_count(
                height as int,
                chunk_size as int,
            ),
        ),
    ensures
        final(meshes)@.map_values(|m: TaggedMesh| m@) == old(meshes)@.map_values(
            |m: TaggedMesh| m@,
        ) + spec_tileset_layer_meshes(
            grid@,
            width as int,
            height as int,
            orientation,
            map_tw as int,
            map_th as int,
            tileset@,
            layer_id,
            chunk_size as int,
            spec_chunk_count(width as int, chunk_size as int) * spec_chunk_count(
                height as int,
                chunk_size as int,
            ),
        ),
{
    let ghost total = spec_chunk_count(width as int, chunk_size as int) * spec_chunk_count(
        height as int,
        chunk_size as int,
    );
    proof {
        lemma_layer_chunks_len(
            grid@,
            width as int,
            height as int,
            orientation,
            map_tw as int,
            map_th as int,
            tileset@,
            chunk_size as int,
            total,
        );
    }
    let n = tl.chunks.len();
    let mut j: usize = 0;
    while j < n
        invariant
            n == tl.chunks@.len(),
            n as int == total,
            total == spec_chunk_count(width as int, chunk_size as int) * spec_chunk_count(
                height as int,
                chunk_size as int,
            ),
            j <= n,
            tileset.images@.len() >= 1,
            1 <= chunk_size <= MAX_CHUNK_SIZE,
            tl.tileset_guid == tileset.first_gid,
            tl@.chunks == spec_layer_chunks(
                grid@,
                width as int,
                height as int,
                orientation,
                map_tw as int,
                map_th as int,
                tileset@,
                chunk_size as int,
                total,
            ),
            meshes@.map_values(|m: TaggedMesh| m@) == old(meshes)@.map_values(
                |m: TaggedMesh| m@,
            ) + spec_tileset_layer_meshes(
                grid@,
                width as int,
                height as int,
                orientation,
                map_tw as int,
                map_th as int,
                tileset@,
                layer_id,
                chunk_size as int,
                j as int,
            ),
        decreases n - j,
    {
        let chunk = &tl.chunks[j];
        proof {
            lemma_layer_chunks_index(
                grid@,
                width as int,
                height as int,
                orientation,
                map_tw as int,
                map_th as int,
                tileset@,
                chunk_size as int,
                total,
                j as int,
            );
            assert(tl@.chunks[j as int] == tl.chunks@[j as int]@);
            lemma_chunk_tiles_len(
                grid@,
                width as int,
                height as int,
                orientation,
                map_tw as int,
                map_th as int,
                tileset@,
                (j as int) / spec_chunk_count(height as int, chunk_size as int),
                (j as int) % spec_chunk_count(height as int, chunk_size as int),
                chunk_size as int,
                (chunk_size as int) * (chunk_size as int),
            );
            assert((chunk_size as int) * (chunk_size as int) <= 0x10_0000) by (nonlinear_arith)
                requires 1 <= chunk_size <= 1024;
        }
        match chunk.build_uv_mesh(tileset) {
            Some(m) => {
                let ghost prev = meshes@;
                let tagged = TaggedMesh { layer_id, tileset_guid: tileset.first_gid, mesh: m };
                meshes.push(tagged);
                proof {
                    prev.lemma_push_map_commute(|m: TaggedMesh| m@, tagged);
                }
            },
            None => {},
        }
        j = j + 1;
        proof {
            assert(meshes@.map_values(|m: TaggedMesh| m@) =~= old(meshes)@.map_values(
                |m: TaggedMesh| m@,
            ) + spec_tileset_layer_meshes(
                grid@,
                width as int,
                height as int,
                orientation,
                map_tw as int,
                map_th as int,
                tileset@,
                layer_id,
                chunk_size as int,
                j as int,
            ));
        }
    }
}

/// Builds one visible layer: for every tileset its chunk grid and the
/// meshes of its non-empty chunks, and the layer's sheet dependencies.
fn build_visible_layer(
    doc: &MapDocument,
    grid: &Vec<u32>,
    layer_id: u32,
    chunk_size: u32,
    meshes: &mut Vec<TaggedMesh>,
    deps: &mut Vec<String>,
) -> (r: MapLayer)
    requires
        doc@.wf(),
        doc.orientation.spec_supported(),
        forall|i: int|
            0 <= i < doc.tilesets@.len() ==> (#[trigger] doc.tilesets@[i]).images@.len() >= 1,
        grid@.len() == doc.width * doc.height,
        1 <= chunk_size <= MAX_CHUNK_SIZE,
    ensures
        r@.tileset_layers == spec_layer_tileset_layers(
            doc@,
            grid@,
            chunk_size as int,
            doc.tilesets@.len() as int,
        ),
        final(meshes)@.map_values(|m: TaggedMesh| m@) == old(meshes)@.map_values(
            |m: TaggedMesh| m@,
        ) + spec_layer_meshes(
            doc@,
            grid@,
            layer_id,
            chunk_size as int,
            doc.tilesets@.len() as int,
        ),
        final(deps)@ == old(deps)@ + spec_layer_deps(doc@, doc.tilesets@.len() as int),
{
    let mut tileset_layers: Vec<TilesetLayer> = Vec::new();
    let n = doc.tilesets.len();
    let mut t: usize = 0;
    while t < n
        invariant
            n == doc.tilesets@.len(),
            t <= n,
            doc@.wf(),
            doc.orientation.spec_supported(),
            forall|i: int|
                0 <= i < doc.tilesets@.len() ==> (#[trigger] doc.tilesets@[i]).images@.len() >= 1,
            grid@.len() == doc.width * doc.height,
            1 <= chunk_size <= MAX_CHUNK_SIZE,
            tileset_layers@.map_values(|x: TilesetLayer| x@) == spec_layer_tileset_layers(
                doc@,
                grid@,
                chunk_size as int,
                t as int,
            ),
            meshes@.map_values(|m: TaggedMesh| m@) == old(meshes)@.map_values(
                |m: TaggedMesh| m@,
            ) + spec_layer_meshes(doc@, grid@, layer_id, chunk_size as int, t as int),
            deps@ == old(deps)@ + spec_layer_deps(doc@, t as int),
        decreases n - t,
    {
        let ts = &doc.tilesets[t];
        proof {
            assert(doc@.tilesets[t as int] == doc.tilesets@[t as int]@);
            assert(doc@.tilesets[t as int].wf());
            assert(doc.tilesets@[t as int].images@.len() >= 1);
        }
        let ghost deps_prev = deps@;
        deps.push(ts.images[0].source.clone());
        let tl = TilesetLayer::new(
            grid,
            doc.width,
            doc.height,
            doc.orientation,
            doc.tile_width,
            doc.tile_height,
            ts,
            chunk_size,
        );
        collect_tileset_layer_meshes(
            &tl,
            ts,
            layer_id,
            chunk_size,
            doc.width,
            doc.height,
            doc.orientation,
            doc.tile_width,
            doc.tile_height,
            grid,
            meshes,
        );
        let ghost tls_prev = tileset_layers@;
        tileset_layers.push(tl);
        t = t + 1;
        proof {
            tls_prev.lemma_push_map_commute(|x: TilesetLayer| x@, tl);
            assert(tileset_layers@.map_values(|x: TilesetLayer| x@) =~= spec_layer_tileset_layers(
                doc@,
                grid@,
                chunk_size as int,
                t as int,
            ));
            assert(meshes@.map_values(|m: TaggedMesh| m@) =~= old(meshes)@.map_values(
                |m: TaggedMesh| m@,
            ) + spec_layer_meshes(doc@, grid@, layer_id, chunk_size as int, t as int));
            assert(deps@ =~= old(deps)@ + spec_layer_deps(doc@, t as int));
        }
    }
    MapLayer { tileset_layers }
}

impl CompiledMap {
    /// Compiles a parsed map document.
    ///
    /// Validation comes first, in a fixed order: the orientation must be
    /// orthogonal or isometric, every tileset must declare a sheet image,
    /// no two tilesets' gid ranges may overlap (resolution would be
    /// ambiguous), and every layer must use the finite grid
    /// representation.  The first failing check fails the whole compile;
    /// no partial map is ever returned.  On success the result is an
    /// exact function of the document and the configuration, so
    /// recompiling an unchanged document reproduces every mesh bit for
    /// bit.
    pub fn try_from_document(doc: &MapDocument, config: &MapConfig) -> (r: Result<
        CompiledMap,
        CompileError,
    >)
        requires
            doc@.wf(),
            1 <= config.chunk_size <= MAX_CHUNK_SIZE,
        ensures
            match r {
                Err(e) => spec_first_error(doc@) == Some(e),
                Ok(m) => {
                    &&& spec_first_error(doc@) is None
                    &&& m@ == (CompiledMapView {
                        orientation: doc.orientation,
                        width: doc.width,
                        height: doc.height,
                        tile_width: doc.tile_width,
                        tile_height: doc.tile_height,
                        chunk_size: config.chunk_size,
                        meshes: spec_map_meshes(
                            doc@,
                            config.chunk_size as int,
                            doc.layers@.len() as int,
                        ),
                        layers: spec_map_layers(
                            doc@,
                            config.chunk_size as int,
                            doc.layers@.len() as int,
                        ),
                        groups: spec_map_groups(doc@),
                        asset_dependencies: spec_asset_deps(doc@, doc.layers@.len() as int),
                    })
                    &&& m@.wf()
                },
            },
    {
        let chunk_size = config.chunk_size;
        if !doc.orientation.supported() {
            return Err(CompileError::UnsupportedOrientation);
        }
        let nts = doc.tilesets.len();
        let mut i: usize = 0;
        while i < nts
            invariant
                nts == doc.tilesets@.len(),
                i <= nts,
                doc.orientation.spec_supported(),
                forall|k: int|
                    0 <= k < i ==> (#[trigger] doc@.tilesets[k]).images.len() >= 1,
            decreases nts - i,
        {
            if doc.tilesets[i].images.len() == 0 {
                proof {
                    assert(doc@.tilesets[i as int].images.len() == 0);
                }
                return Err(CompileError::TilesetWithoutImage);
            }
            i = i + 1;
        }
        proof {
            assert(!spec_has_imageless_tileset(doc@));
        }
        let mut a: usize = 0;
        while a < nts
            invariant
                nts == doc.tilesets@.len(),
                a <= nts,
                doc@.wf(),
                doc.orientation.spec_supported(),
                !spec_has_imageless_tileset(doc@),
                forall|x: int, y: int|
                    0 <= x < y < nts && x < a ==> !spec_ranges_overlap(
                        #[trigger] doc@.tilesets[x],
                        #[trigger] doc@.tilesets[y],
                    ),
            decreases nts - a,
        {
            let mut b: usize = a + 1;
            while b < nts
                invariant
                    nts == doc.tilesets@.len(),
                    a < b <= nts || (a + 1 == b && b > nts),
                    a < nts,
                    doc@.wf(),
                    doc.orientation.spec_supported(),
                    !spec_has_imageless_tileset(doc@),
                    forall|x: int, y: int|
                        0 <= x < y < nts && x < a ==> !spec_ranges_overlap(
                            #[trigger] doc@.tilesets[x],
                            #[trigger] doc@.tilesets[y],
                        ),
                    forall|y: int|
                        a < y < b ==> !spec_ranges_overlap(
                            doc@.tilesets[a as int],
                            #[trigger] doc@.tilesets[y],
                        ),
                decreases nts - b,
            {
                let ta = &doc.tilesets[a];
                let tb = &doc.tilesets[b];
                proof {
                    assert(doc@.tilesets[a as int].wf());
                    assert(doc@.tilesets[b as int].wf());
                }
                if ta.first_gid < tb.first_gid + tb.tile_count && tb.first_gid < ta.first_gid
                    + ta.tile_count {
                    proof {
                        assert(spec_ranges_overlap(
                            doc@.tilesets[a as int],
                            doc@.tilesets[b as int],
                        ));
                    }
                    return Err(CompileError::OverlappingGidRanges);
                }
                b = b + 1;
            }
            a = a + 1;
        }
        proof {
            assert(!spec_has_overlapping_ranges(doc@));
        }
        let nl = doc.layers.len();
        let mut li: usize = 0;
        while li < nl
            invariant
                nl == doc.layers@.len(),
                li <= nl,
                doc.orientation.spec_supported(),
                !spec_has_imageless_tileset(doc@),
                !spec_has_overlapping_ranges(doc@),
                forall|k: int| 0 <= k < li ==> (#[trigger] doc@.layers[k]).data is Finite,
            decreases nl - li,
        {
            if let crate::document::LayerData::Infinite = &doc.layers[li].data {
                proof {
                    assert(doc@.layers[li as int].data is Infinite);
                }
                return Err(CompileError::InfiniteLayer);
            }
            li = li + 1;
        }
        proof {
            assert(!spec_has_infinite_layer(doc@));
        }
        let mut meshes: Vec<TaggedMesh> = Vec::new();
        let mut map_layers: Vec<MapLayer> = Vec::new();
        let mut deps: Vec<String> = Vec::new();
        let mut l: usize = 0;
        while l < nl
            invariant
                nl == doc.layers@.len(),
                l <= nl,
                doc@.wf(),
                doc.orientation.spec_supported(),
                1 <= chunk_size <= MAX_CHUNK_SIZE,
                forall|k: int| 0 <= k < nl ==> (#[trigger] doc@.layers[k]).data is Finite,
                forall|k: int|
                    0 <= k < doc.tilesets@.len() ==> (#[trigger] doc@.tilesets[k]).images.len()
                        >= 1,
                meshes@.map_values(|m: TaggedMesh| m@) == spec_map_meshes(
                    doc@,
                    chunk_size as int,
                    l as int,
                ),
                map_layers@.map_values(|x: MapLayer| x@) == spec_map_layers(
                    doc@,
                    chunk_size as int,
                    l as int,
                ),
                deps@ == spec_asset_deps(doc@, l as int),
                map_layers@.len() == spec_visible_count(doc@, l as int),
            decreases nl - l,
        {
            let layer = &doc.layers[l];
            proof {
                assert(doc@.layers[l as int] == doc.layers@[l as int]@);
            }
            match &layer.data {
                crate::document::LayerData::Finite(grid) => {
                    if layer.visible {
                        proof {
                            lemma_visible_count_bound(doc@, l as int);
                            assert forall|i: int|
                                0 <= i < doc.tilesets@.len() implies (#[trigger] doc.tilesets@[
                                i
                            ]).images@.len() >= 1 by {
                                assert(doc@.tilesets[i].images.len() >= 1);
                                assert(doc@.tilesets[i] == doc.tilesets@[i]@);
                            }
                        }
                        let layer_id = map_layers.len() as u32;
                        let ghost mlv_prev = map_layers@;
                        let ml = build_visible_layer(
                            doc,
                            grid,
                            layer_id,
                            chunk_size,
                            &mut meshes,
                            &mut deps,
                        );
                        map_layers.push(ml);
                        proof {
                            mlv_prev.lemma_push_map_commute(|x: MapLayer| x@, ml);
                        }
                    }
                },
                crate::document::LayerData::Infinite => {},
            }
            l = l + 1;
            proof {
                assert(meshes@.map_values(|m: TaggedMesh| m@) =~= spec_map_meshes(
                    doc@,
                    chunk_size as int,
                    l as int,
                ));
                assert(map_layers@.map_values(|x: MapLayer| x@) =~= spec_map_layers(
                    doc@,
                    chunk_size as int,
                    l as int,
                ));
                assert(deps@ =~= spec_asset_deps(doc@, l as int));
            }
        }
        let mut groups: Vec<ObjectGroup> = Vec::new();
        let ng = doc.object_groups.len();
        let mut g: usize = 0;
        while g < ng
            invariant
                ng == doc.object_groups@.len(),
                g <= ng,
                groups@.map_values(|x: ObjectGroup| x@) == doc.object_groups@.take(
                    g as int,
                ).map_values(
                    |og: crate::document::RawObjectGroup|
                        spec_object_group(og@, doc.tilesets@.map_values(|t: Tileset| t@)),
                ),
            decreases ng - g,
        {
            let ghost groups_prev = groups@;
            let grp = ObjectGroup::new_with_tile_ids(&doc.object_groups[g], &doc.tilesets);
            groups.push(grp);
            g = g + 1;
            proof {
                groups_prev.lemma_push_map_commute(|x: ObjectGroup| x@, grp);
                doc.object_groups@.lemma_map_take_succ(
                    |og: crate::document::RawObjectGroup|
                        spec_object_group(og@, doc.tilesets@.map_values(|t: Tileset| t@)),
                    g - 1,
                );
                assert(groups@.map_values(|x: ObjectGroup| x@) == doc.object_groups@.take(
                    g as int,
                ).map_values(
                    |og: crate::document::RawObjectGroup|
                        spec_object_group(og@, doc.tilesets@.map_values(|t: Tileset| t@)),
                ));
            }
        }
        proof {
            assert(doc.object_groups@.take(ng as int) =~= doc.object_groups@);
            assert(doc.object_groups@.map_values(
                |og: crate::document::RawObjectGroup|
                    spec_object_group(og@, doc.tilesets@.map_values(|t: Tileset| t@)),
            ) =~= spec_map_groups(doc@));
        }
        let r = CompiledMap {
            orientation: doc.orientation,
            width: doc.width,
            height: doc.height,
            tile_width: doc.tile_width,
            tile_height: doc.tile_height,
            chunk_size,
            meshes,
            layers: map_layers,
            groups,
            asset_dependencies: deps,
        };
        Ok(r)
    }

    /// The projection of the map's centre point, in subpixel steps.  A
    /// host that centres the map translates everything it spawns by the
    /// negation of this point.
    pub fn center(&self) -> (r: WorldPos)
        requires
            self@.wf(),
        ensures
            Some(r) == crate::geometry::spec_map_center(
                self.orientation,
                self.width as int,
                self.height as int,
                self.tile_width as int,
                self.tile_height as int,
            ),
    {
        let r = map_center(
            self.orientation,
            self.width,
            self.height,
            self.tile_width as i64,
            self.tile_height as i64,
        );
        match r {
            Some(c) => c,
            None => WorldPos { x: 0, y: 0 },
        }
    }
}

} // verus!
