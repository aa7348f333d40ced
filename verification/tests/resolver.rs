use tiled_mesh::document::{Tileset, TsImage};
use tiled_mesh::geometry::GridPos;
use tiled_mesh::gid::{flip_flags, remove_tile_flags, FLIP_D_FLAG, FLIP_H_FLAG, FLIP_V_FLAG};
use tiled_mesh::tileset::{QuadRect, TileChunk};

fn sheet(first_gid: u32, spacing: u32) -> Tileset {
    Tileset {
        first_gid,
        tile_count: 16,
        tile_width: 16,
        tile_height: 16,
        spacing,
        images: vec![TsImage { width: 64, height: 64, source: String::from("tiles.png") }],
        tiles: Vec::new(),
    }
}

fn quad() -> QuadRect {
    QuadRect { left: 0, bottom: -64, right: 64, top: 0 }
}

#[test]
fn column_count_without_spacing() {
    assert_eq!(sheet(1, 0).columns(), 4);
}

#[test]
fn column_count_with_spacing() {
    // (64 + 2) / (16 + 2) = 3 columns fit once each carries its spacing.
    assert_eq!(sheet(1, 2).columns(), 3);
}

#[test]
fn first_row_marches_by_tile_width() {
    let ts = sheet(1, 0);
    let mut expected_x = 0i64;
    for k in 0..4u32 {
        let t = TileChunk::from_layer_and_tileset(1 + k, &ts, GridPos { x: 0, y: 0 }, quad());
        assert_eq!(t.uv.v_min, 0, "first row sits at sheet y 0");
        assert_eq!(t.uv.u_min, expected_x);
        assert_eq!(t.uv.u_max, expected_x + 16);
        expected_x += 16;
    }
}

#[test]
fn second_row_resolution() {
    let ts = sheet(1, 0);
    // Local index 5 = row 1, column 1.
    let t = TileChunk::from_layer_and_tileset(6, &ts, GridPos { x: 0, y: 0 }, quad());
    assert_eq!((t.uv.u_min, t.uv.v_min, t.uv.u_max, t.uv.v_max), (16, 16, 32, 32));
}

#[test]
fn spacing_offsets_sheet_coordinates() {
    let ts = sheet(1, 2);
    // With spacing the formula subtracts one spacing step even in the
    // first column and row.
    let t = TileChunk::from_layer_and_tileset(1, &ts, GridPos { x: 0, y: 0 }, quad());
    assert_eq!((t.uv.u_min, t.uv.v_min), (-2, -2));
    let t = TileChunk::from_layer_and_tileset(2, &ts, GridPos { x: 0, y: 0 }, quad());
    assert_eq!(t.uv.u_min, 16);
}

#[test]
fn nonzero_first_gid_resolution() {
    let ts = sheet(100, 0);
    let t = TileChunk::from_layer_and_tileset(103, &ts, GridPos { x: 2, y: 3 }, quad());
    // Local index 3: last column of the first row.
    assert_eq!((t.uv.u_min, t.uv.v_min), (48, 0));
    assert_eq!(t.pos, GridPos { x: 2, y: 3 });
    assert_eq!(t.vertex, quad());
    assert_eq!(t.tile_id, 103);
}

#[test]
fn ownership_bounds() {
    let ts = sheet(10, 0);
    assert!(!ts.owns(0));
    assert!(!ts.owns(9));
    assert!(ts.owns(10));
    assert!(ts.owns(25));
    assert!(!ts.owns(26));
}

#[test]
fn ownership_ignores_flip_bits() {
    let ts = sheet(10, 0);
    assert!(ts.owns(10 | FLIP_H_FLAG | FLIP_V_FLAG | FLIP_D_FLAG));
}

#[test]
fn strip_flags_and_read_them() {
    let raw = 7 | FLIP_H_FLAG | FLIP_D_FLAG;
    assert_eq!(remove_tile_flags(raw), 7);
    let f = flip_flags(raw);
    assert!(f.flip_h);
    assert!(!f.flip_v);
    assert!(f.flip_d);
}

#[test]
fn resolved_tile_keeps_flip_bits() {
    let ts = sheet(1, 0);
    let raw = 2 | FLIP_V_FLAG;
    let t = TileChunk::from_layer_and_tileset(raw, &ts, GridPos { x: 0, y: 0 }, quad());
    assert!(t.flip_v);
    assert!(!t.flip_h);
    assert!(!t.flip_d);
    // The sheet rectangle comes from the cleaned gid.
    assert_eq!(t.uv.u_min, 16);
}
