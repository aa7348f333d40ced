//! Mesh data built from resolved tiles.
//!
//! Every tile quad contributes four vertices in the order bottom-left,
//! top-left, top-right, bottom-right, four texture corners reordered by the
//! tile's flip bits, and six indices forming the two counter-clockwise
//! triangles `[0, 2, 1]` and `[0, 3, 2]` of the quad.

use vstd::prelude::*;

use crate::gid::FlipFlags;
use crate::tileset::TileChunk;
use crate::uv_flip::UvPoint;
use crate::uv_flip::spec_apply_flips;

verus! {

/// One mesh vertex, in subpixel steps (see [`crate::geometry::SUBPIXELS`]).
/// The depth coordinate of tile meshes is always 0; layers are separated by
/// the host using the layer tag of the mesh.
#[derive(Clone, Copy, PartialEq, Eq, Structural, Debug)]
pub struct Vertex {
    pub x: i64,
    pub y: i64,
    pub z: i64,
}

/// One chunk's mesh: parallel vertex attributes and triangle indices, plus
/// the sheet dimensions that turn the texture numerators into coordinates.
pub struct Mesh {
    pub positions: Vec<Vertex>,
    pub uvs: Vec<UvPoint>,
    pub indices: Vec<u32>,
    pub sheet_w: u32,
    pub sheet_h: u32,
}

/// View of [`Mesh`].
pub ghost struct MeshView {
    pub positions: Seq<Vertex>,
    pub uvs: Seq<UvPoint>,
    pub indices: Seq<u32>,
    pub sheet_w: u32,
    pub sheet_h: u32,
}

impl View for Mesh {
    type V = MeshView;

    open spec fn view(&self) -> MeshView {
        MeshView {
            positions: self.positions@,
            uvs: self.uvs@,
            indices: self.indices@,
            sheet_w: self.sheet_w,
            sheet_h: self.sheet_h,
        }
    }
}

/// A chunk mesh tagged with the layer it belongs to and the first gid of
/// the tileset whose sheet it samples — the stable key the host binds
/// materials with and despawns stale chunks by.
pub struct TaggedMesh {
    pub layer_id: u32,
    pub tileset_guid: u32,
    pub mesh: Mesh,
}

/// View of [`TaggedMesh`].
pub ghost struct TaggedMeshView {
    pub layer_id: u32,
    pub tileset_guid: u32,
    pub mesh: MeshView,
}

impl View for TaggedMesh {
    type V = TaggedMeshView;

    open spec fn view(&self) -> TaggedMeshView {
        TaggedMeshView { layer_id: self.layer_id, tileset_guid: self.tileset_guid, mesh: self.mesh@ }
    }
}

/// The four vertices of a tile quad: bottom-left, top-left, top-right,
/// bottom-right.
pub open spec fn spec_quad_positions(t: TileChunk) -> Seq<Vertex> {
    seq![
        Vertex { x: t.vertex.left, y: t.vertex.bottom, z: 0 },
        Vertex { x: t.vertex.left, y: t.vertex.top, z: 0 },
        Vertex { x: t.vertex.right, y: t.vertex.top, z: 0 },
        Vertex { x: t.vertex.right, y: t.vertex.bottom, z: 0 },
    ]
}

/// The quad's texture corners before flipping, matching the vertex order:
/// the bottom-left vertex samples the rectangle's lower edge (`v_max`,
/// texture space grows downwards), the top-left its upper edge, and so on.
pub open spec fn spec_base_uv_corners(t: TileChunk) -> Seq<UvPoint> {
    seq![
        UvPoint { u: t.uv.u_min, v: t.uv.v_max },
        UvPoint { u: t.uv.u_min, v: t.uv.v_min },
        UvPoint { u: t.uv.u_max, v: t.uv.v_min },
        UvPoint { u: t.uv.u_max, v: t.uv.v_max },
    ]
}

/// The quad's texture corners after applying the tile's flip bits.
pub open spec fn spec_quad_uvs(t: TileChunk) -> Seq<UvPoint> {
    spec_apply_flips(
        spec_base_uv_corners(t),
        FlipFlags { flip_h: t.flip_h, flip_v: t.flip_v, flip_d: t.flip_d },
    )
}

/// The six indices of the quad whose first vertex is `base`: the two
/// counter-clockwise triangles `[base, base+2, base+1]` and
/// `[base, base+3, base+2]`.
pub open spec fn spec_quad_indices(base: u32) -> Seq<u32>
    recommends
        base + 3 <= u32::MAX,
{
    seq![base, (base + 2) as u32, (base + 1) as u32, base, (base + 3) as u32, (base + 2) as u32]
}

/// All vertices of the tiles, four per tile, in tile order.
pub open spec fn spec_mesh_positions(tiles: Seq<TileChunk>) -> Seq<Vertex>
    decreases tiles.len(),
{
    if tiles.len() == 0 {
        seq![]
    } else {
        spec_mesh_positions(tiles.drop_last()) + spec_quad_positions(tiles.last())
    }
}

/// All texture corners of the tiles, four per tile, in tile order.
pub open spec fn spec_mesh_uvs(tiles: Seq<TileChunk>) -> Seq<UvPoint>
    decreases tiles.len(),
{
    if tiles.len() == 0 {
        seq![]
    } else {
        spec_mesh_uvs(tiles.drop_last()) + spec_quad_uvs(tiles.last())
    }
}

/// All triangle indices of the tiles, six per tile, in tile order; the
/// quad of tile `i` starts at vertex `4 * i`.
pub open spec fn spec_mesh_indices(tiles: Seq<TileChunk>) -> Seq<u32>
    decreases tiles.len(),
{
    if tiles.len() == 0 {
        seq![]
    } else {
        spec_mesh_indices(tiles.drop_last()) + spec_quad_indices(
            (4 * (tiles.len() - 1)) as u32,
        )
    }
}

/// A mesh built from `n` tiles has exactly `4 * n` vertices, `4 * n`
/// texture corners and `6 * n` indices.
pub proof fn lemma_mesh_counts(tiles: Seq<TileChunk>)
    ensures
        spec_mesh_positions(tiles).len() == 4 * tiles.len(),
        spec_mesh_uvs(tiles).len() == 4 * tiles.len(),
        spec_mesh_indices(tiles).len() == 6 * tiles.len(),
    decreases tiles.len(),
{
    if tiles.len() > 0 {
        lemma_mesh_counts(tiles.drop_last());
    }
}

} // verus!
