use tiled_mesh::geometry::{
    map_center, project_iso, project_ortho, round_div, unproject_iso, unproject_ortho, GridPos,
    Orientation, WorldPos,
};

#[test]
fn ortho_projection_values() {
    let p = project_ortho(GridPos { x: 3, y: 4 }, 16, 16);
    // 3 tiles right = 48 px = 192 quarter-pixel steps; 4 tiles down = -256.
    assert_eq!(p, WorldPos { x: 192, y: -256 });
}

#[test]
fn ortho_round_trip() {
    for &(x, y) in &[(0i64, 0i64), (3, 4), (7, 1), (1000, 999)] {
        let w = project_ortho(GridPos { x, y }, 16, 24);
        let g = unproject_ortho(w, 16, 24);
        assert_eq!(g, GridPos { x, y });
    }
}

#[test]
fn iso_projection_values() {
    let p = project_iso(GridPos { x: 2, y: 1 }, 32, 16);
    // (2 - 1) * 32 / 2 = 16 px right, (2 + 1) * 16 / 2 = 24 px down.
    assert_eq!(p, WorldPos { x: 64, y: -96 });
}

#[test]
fn iso_round_trip() {
    for &(x, y) in &[(0i64, 0i64), (2, 1), (5, 9), (250, 3)] {
        let w = project_iso(GridPos { x, y }, 32, 16);
        let g = unproject_iso(w, 32, 16);
        assert_eq!(g, GridPos { x, y });
    }
}

#[test]
fn unproject_rounds_to_nearest() {
    // 50 quarter-steps = 12.5 px; one 16 px tile is 64 steps, so 50 / 64
    // rounds to 1.
    let g = unproject_ortho(WorldPos { x: 50, y: 0 }, 16, 16);
    assert_eq!(g.x, 1);
    // 20 steps = 5 px rounds down to tile 0.
    let g = unproject_ortho(WorldPos { x: 20, y: 0 }, 16, 16);
    assert_eq!(g.x, 0);
}

#[test]
fn iso_unproject_rounds_to_nearest_cell() {
    // The projection of (1, 0) with 32x16 tiles is (64, -32); nudge it by
    // under half a cell and the same cell comes back.
    let w = project_iso(GridPos { x: 1, y: 0 }, 32, 16);
    let g = unproject_iso(WorldPos { x: w.x + 10, y: w.y + 6 }, 32, 16);
    assert_eq!(g, GridPos { x: 1, y: 0 });
}

#[test]
fn round_div_ties_away_from_zero() {
    assert_eq!(round_div(5, 2), 3);
    assert_eq!(round_div(-5, 2), -3);
    assert_eq!(round_div(7, 3), 2);
    assert_eq!(round_div(-7, 3), -2);
    assert_eq!(round_div(8, 4), 2);
}

#[test]
fn center_orthogonal() {
    // 64x64 tiles of 16x16 px: centre at (512, -512) px.
    let c = map_center(Orientation::Orthogonal, 64, 64, 16, 16).unwrap();
    assert_eq!(c, WorldPos { x: 2048, y: -2048 });
}

#[test]
fn center_isometric() {
    let c = map_center(Orientation::Isometric, 10, 4, 32, 16).unwrap();
    // x: (10 - 4) * 32 / 4 px = 48 px = 192 steps over 4... in steps:
    // tile_w * (w - h) = 32 * 6 = 192; y: -(16 * 14) = -224.
    assert_eq!(c, WorldPos { x: 192, y: -224 });
}

#[test]
fn center_unsupported_orientations() {
    assert!(map_center(Orientation::Hexagonal, 8, 8, 16, 16).is_none());
    assert!(map_center(Orientation::Staggered, 8, 8, 16, 16).is_none());
}

#[test]
fn orientation_support_flags() {
    assert!(Orientation::Orthogonal.supported());
    assert!(Orientation::Isometric.supported());
    assert!(!Orientation::Hexagonal.supported());
    assert!(!Orientation::Staggered.supported());
}
