use tiled_mesh::chunk::{LayerChunk, TilesetLayer};
use tiled_mesh::document::{Tileset, TsImage};
use tiled_mesh::geometry::Orientation;
use tiled_mesh::gid::FLIP_H_FLAG;

fn small_tileset() -> Tileset {
    Tileset {
        first_gid: 1,
        tile_count: 16,
        tile_width: 16,
        tile_height: 16,
        spacing: 0,
        images: vec![TsImage { width: 64, height: 64, source: String::from("tiles.png") }],
        tiles: Vec::new(),
    }
}

#[test]
fn empty_chunk_produces_no_mesh() {
    let ts = small_tileset();
    let grid = vec![0u32; 16];
    let chunk = LayerChunk::build(&grid, 4, 4, Orientation::Orthogonal, 16, 16, &ts, 0, 0, 32);
    assert!(chunk.tiles.is_empty());
    assert!(chunk.build_uv_mesh(&ts).is_none());
}

#[test]
fn foreign_tileset_cells_are_skipped() {
    let ts = small_tileset();
    // Gid 100 belongs to no range of this tileset.
    let grid = vec![100u32; 16];
    let chunk = LayerChunk::build(&grid, 4, 4, Orientation::Orthogonal, 16, 16, &ts, 0, 0, 32);
    assert!(chunk.build_uv_mesh(&ts).is_none());
}

#[test]
fn vertex_and_index_counts_follow_tile_count() {
    let ts = small_tileset();
    let mut grid = vec![0u32; 16];
    grid[0] = 1;
    grid[5] = 2;
    grid[10] = 3;
    let chunk = LayerChunk::build(&grid, 4, 4, Orientation::Orthogonal, 16, 16, &ts, 0, 0, 32);
    assert_eq!(chunk.tiles.len(), 3);
    let mesh = chunk.build_uv_mesh(&ts).unwrap();
    assert_eq!(mesh.positions.len(), 12);
    assert_eq!(mesh.uvs.len(), 12);
    assert_eq!(mesh.indices.len(), 18);
    assert_eq!(mesh.sheet_w, 64);
    assert_eq!(mesh.sheet_h, 64);
}

#[test]
fn first_tile_quad_and_winding() {
    let ts = small_tileset();
    let mut grid = vec![0u32; 16];
    grid[0] = 1;
    let chunk = LayerChunk::build(&grid, 4, 4, Orientation::Orthogonal, 16, 16, &ts, 0, 0, 32);
    let mesh = chunk.build_uv_mesh(&ts).unwrap();
    // Quad corners in subpixel steps (16 px tile = 64 steps): bottom-left,
    // top-left, top-right, bottom-right.
    let p: Vec<(i64, i64, i64)> = mesh.positions.iter().map(|v| (v.x, v.y, v.z)).collect();
    assert_eq!(p, vec![(0, -64, 0), (0, 0, 0), (64, 0, 0), (64, -64, 0)]);
    assert_eq!(mesh.indices, vec![0, 2, 1, 0, 3, 2]);
    // Texture corners follow the vertex order; texture space grows down.
    let uv: Vec<(i64, i64)> = mesh.uvs.iter().map(|u| (u.u, u.v)).collect();
    assert_eq!(uv, vec![(0, 16), (0, 0), (16, 0), (16, 16)]);
}

#[test]
fn horizontally_flipped_tile_reverses_texture_corners() {
    let ts = small_tileset();
    let mut grid = vec![0u32; 16];
    grid[0] = 1 | FLIP_H_FLAG;
    let chunk = LayerChunk::build(&grid, 4, 4, Orientation::Orthogonal, 16, 16, &ts, 0, 0, 32);
    let mesh = chunk.build_uv_mesh(&ts).unwrap();
    let uv: Vec<(i64, i64)> = mesh.uvs.iter().map(|u| (u.u, u.v)).collect();
    assert_eq!(uv, vec![(16, 16), (16, 0), (0, 0), (0, 16)]);
    // Positions are untouched by flips.
    assert_eq!(mesh.positions[0].x, 0);
}

#[test]
fn isometric_quads_are_centred_diamond_boxes() {
    let ts = small_tileset();
    let mut grid = vec![0u32; 16];
    grid[0] = 1;
    let chunk = LayerChunk::build(&grid, 4, 4, Orientation::Isometric, 16, 16, &ts, 0, 0, 32);
    let mesh = chunk.build_uv_mesh(&ts).unwrap();
    // Cell (0, 0) projects to the origin; the quad spans half a tile to
    // each side and one tile down.
    let p: Vec<(i64, i64)> = mesh.positions.iter().map(|v| (v.x, v.y)).collect();
    assert_eq!(p, vec![(-32, -64), (-32, 0), (32, 0), (32, -64)]);
}

#[test]
fn chunk_grid_covers_the_map() {
    let ts = small_tileset();
    // A 3x5 map with chunk edge 2 needs 2 x 3 chunks.
    let grid = vec![1u32; 15];
    let tl = TilesetLayer::new(&grid, 3, 5, Orientation::Orthogonal, 16, 16, &ts, 2);
    assert_eq!(tl.tileset_guid, 1);
    assert_eq!(tl.chunks.len(), 6);
    // Chunks walk column by column; the last column holds one cell each.
    let counts: Vec<usize> = tl.chunks.iter().map(|c| c.tiles.len()).collect();
    assert_eq!(counts, vec![4, 4, 2, 2, 2, 1]);
}

#[test]
fn out_of_bounds_cells_contribute_nothing() {
    let ts = small_tileset();
    // One chunk of edge 32 covers the whole 4x4 map; the 1008 cells past
    // the bounds add nothing.
    let grid = vec![1u32; 16];
    let chunk = LayerChunk::build(&grid, 4, 4, Orientation::Orthogonal, 16, 16, &ts, 0, 0, 32);
    assert_eq!(chunk.tiles.len(), 16);
}
