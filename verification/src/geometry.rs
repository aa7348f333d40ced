//! Coordinate projector: maps tile-grid coordinates to world coordinates and
//! back, for orthogonal and isometric map orientations.
//!
//! World coordinates are exact integers counted in *subpixel* steps,
//! [`SUBPIXELS`] per pixel.  With four steps per pixel both the orthogonal
//! and the isometric projection of an integer grid position land on a whole
//! number of steps, as does the projection of the map's centre point, so no
//! rounding ever happens on the forward path.

use vstd::prelude::*;

verus! {

/// World-coordinate steps per pixel.
pub const SUBPIXELS: i64 = 4;

/// Largest tile edge, in pixels, that the projector accepts.  Together with
/// [`MAX_GRID`] it keeps every product computed here far inside the `i64`
/// range; it does not restrict any map a real sprite sheet could describe.
pub const MAX_TILE_DIM: i64 = 4096;

/// Largest grid coordinate magnitude the projector accepts (machine limit,
/// see [`MAX_TILE_DIM`]).
pub const MAX_GRID: i64 = 0x10_0000;

/// Largest world-coordinate magnitude `unproject_*` accepts (machine limit,
/// see [`MAX_TILE_DIM`]).
pub const MAX_WORLD: i64 = 0x100_0000_0000;

/// Map orientation as declared by the map document.  Only `Orthogonal` and
/// `Isometric` are supported by the compiler; the other two are rejected.
#[derive(Clone, Copy, PartialEq, Eq, Structural, Debug)]
pub enum Orientation {
    Orthogonal,
    Isometric,
    Staggered,
    Hexagonal,
}

impl Orientation {
    /// True for the orientations the compiler supports.
    pub open spec fn spec_supported(self) -> bool {
        self == Orientation::Orthogonal || self == Orientation::Isometric
    }

    /// True for the orientations the compiler supports.
    pub fn supported(&self) -> (r: bool)
        ensures
            r == self.spec_supported(),
    {
        match self {
            Orientation::Orthogonal => true,
            Orientation::Isometric => true,
            Orientation::Staggered => false,
            Orientation::Hexagonal => false,
        }
    }
}

/// A position on the tile grid, in whole tiles.
#[derive(Clone, Copy, PartialEq, Eq, Structural, Debug)]
pub struct GridPos {
    pub x: i64,
    pub y: i64,
}

/// A world-space position, in subpixel steps ([`SUBPIXELS`] per pixel).
#[derive(Clone, Copy, PartialEq, Eq, Structural, Debug)]
pub struct WorldPos {
    pub x: i64,
    pub y: i64,
}

/// `n / d` rounded to the nearest integer, ties away from zero.
pub open spec fn spec_round_div(n: int, d: int) -> int
    recommends
        d > 0,
{
    if n >= 0 {
        (2 * n + d) / (2 * d)
    } else {
        -((2 * (-n) + d) / (2 * d))
    }
}

/// Dividing an exact multiple of `d` rounds to the exact quotient.
pub proof fn lemma_round_div_exact(q: int, d: int)
    requires
        d > 0,
    ensures
        spec_round_div(d * q, d) == q,
{
    if q >= 0 {
        assert((2 * (d * q) + d) / (2 * d) == q) by (nonlinear_arith)
            requires d > 0 && q >= 0;
    } else {
        assert(d * q < 0) by (nonlinear_arith)
            requires d > 0 && q < 0;
        assert((2 * (-(d * q)) + d) / (2 * d) == -q) by (nonlinear_arith)
            requires d > 0 && q < 0;
    }
}

/// `n / d` rounded to the nearest integer, ties away from zero.
pub fn round_div(n: i64, d: i64) -> (r: i64)
    requires
        0 < d <= 0x1000_0000_0000_0000,
        -0x1000_0000_0000_0000 <= n <= 0x1000_0000_0000_0000,
    ensures
        r as int == spec_round_div(n as int, d as int),
{
    if n >= 0 {
        (2 * n + d) / (2 * d)
    } else {
        -((2 * (-n) + d) / (2 * d))
    }
}

/// The orthogonal projection of a grid position, in subpixel steps:
/// `x` grows to the right by `tile_w` pixels per column, `y` falls by
/// `tile_h` pixels per row (y-down grid to y-up world).
pub open spec fn spec_project_ortho(px: int, py: int, tw: int, th: int) -> (int, int) {
    (4 * tw * px, -(4 * th * py))
}

/// The isometric projection of a grid position, in subpixel steps:
/// half a tile right and half a tile down per column, half a tile left and
/// half a tile down per row.
pub open spec fn spec_project_iso(px: int, py: int, tw: int, th: int) -> (int, int) {
    (2 * tw * (px - py), -(2 * th * (px + py)))
}

/// Rounds a world position back to the nearest orthogonal grid position.
pub open spec fn spec_unproject_ortho(wx: int, wy: int, tw: int, th: int) -> (int, int)
    recommends
        tw > 0,
        th > 0,
{
    (spec_round_div(wx, 4 * tw), spec_round_div(-wy, 4 * th))
}

/// Rounds a world position back to the nearest isometric grid position.
pub open spec fn spec_unproject_iso(wx: int, wy: int, tw: int, th: int) -> (int, int)
    recommends
        tw > 0,
        th > 0,
{
    (
        spec_round_div(wx * th - wy * tw, 4 * tw * th),
        spec_round_div(-(wy * tw) - wx * th, 4 * tw * th),
    )
}

/// Projects a grid position to world space for an orthogonal map.
pub fn project_ortho(pos: GridPos, tile_w: i64, tile_h: i64) -> (r: WorldPos)
    requires
        1 <= tile_w <= MAX_TILE_DIM,
        1 <= tile_h <= MAX_TILE_DIM,
        -MAX_GRID <= pos.x <= MAX_GRID,
        -MAX_GRID <= pos.y <= MAX_GRID,
    ensures
        (r.x as int, r.y as int) == spec_project_ortho(
            pos.x as int,
            pos.y as int,
            tile_w as int,
            tile_h as int,
        ),
{
    proof {
        assert(-0x4000_0000_0000 <= 4 * (tile_w as int) * (pos.x as int) <= 0x4000_0000_0000)
            by (nonlinear_arith)
            requires 1 <= tile_w <= 4096, -0x10_0000 <= pos.x <= 0x10_0000;
        assert(-0x4000_0000_0000 <= 4 * (tile_h as int) * (pos.y as int) <= 0x4000_0000_0000)
            by (nonlinear_arith)
            requires 1 <= tile_h <= 4096, -0x10_0000 <= pos.y <= 0x10_0000;
    }
    WorldPos { x: 4 * tile_w * pos.x, y: -(4 * tile_h * pos.y) }
}

/// Projects a grid position to world space for an isometric map.
pub fn project_iso(pos: GridPos, tile_w: i64, tile_h: i64) -> (r: WorldPos)
    requires
        1 <= tile_w <= MAX_TILE_DIM,
        1 <= tile_h <= MAX_TILE_DIM,
        -MAX_GRID <= pos.x <= MAX_GRID,
        -MAX_GRID <= pos.y <= MAX_GRID,
    ensures
        (r.x as int, r.y as int) == spec_project_iso(
            pos.x as int,
            pos.y as int,
            tile_w as int,
            tile_h as int,
        ),
{
    proof {
        assert(-0x4000_0000_0000 <= 2 * (tile_w as int) * (pos.x - pos.y) <= 0x4000_0000_0000)
            by (nonlinear_arith)
            requires
                1 <= tile_w <= 4096,
                -0x10_0000 <= pos.x <= 0x10_0000,
                -0x10_0000 <= pos.y <= 0x10_0000,
        ;
        assert(-0x4000_0000_0000 <= 2 * (tile_h as int) * (pos.x + pos.y) <= 0x4000_0000_0000)
            by (nonlinear_arith)
            requires
                1 <= tile_h <= 4096,
                -0x10_0000 <= pos.x <= 0x10_0000,
                -0x10_0000 <= pos.y <= 0x10_0000,
        ;
    }
    WorldPos { x: 2 * tile_w * (pos.x - pos.y), y: -(2 * tile_h * (pos.x + pos.y)) }
}

/// Rounds a world position back to the nearest orthogonal grid position.
pub fn unproject_ortho(pos: WorldPos, tile_w: i64, tile_h: i64) -> (r: GridPos)
    requires
        1 <= tile_w <= MAX_TILE_DIM,
        1 <= tile_h <= MAX_TILE_DIM,
        -MAX_WORLD <= pos.x <= MAX_WORLD,
        -MAX_WORLD <= pos.y <= MAX_WORLD,
    ensures
        (r.x as int, r.y as int) == spec_unproject_ortho(
            pos.x as int,
            pos.y as int,
            tile_w as int,
            tile_h as int,
        ),
{
    GridPos { x: round_div(pos.x, 4 * tile_w), y: round_div(-pos.y, 4 * tile_h) }
}

/// Rounds a world position back to the nearest isometric grid position.
pub fn unproject_iso(pos: WorldPos, tile_w: i64, tile_h: i64) -> (r: GridPos)
    requires
        1 <= tile_w <= MAX_TILE_DIM,
        1 <= tile_h <= MAX_TILE_DIM,
        -MAX_WORLD <= pos.x <= MAX_WORLD,
        -MAX_WORLD <= pos.y <= MAX_WORLD,
    ensures
        (r.x as int, r.y as int) == spec_unproject_iso(
            pos.x as int,
            pos.y as int,
            tile_w as int,
            tile_h as int,
        ),
{
    proof {
        assert(0 < 4 * (tile_w as int) * (tile_h as int) <= 0x400_0000) by (nonlinear_arith)
            requires 1 <= tile_w <= 4096, 1 <= tile_h <= 4096;
        assert(-0x10_0000_0000_0000 <= (pos.x as int) * (tile_h as int)
            <= 0x10_0000_0000_0000) by (nonlinear_arith)
            requires 1 <= tile_h <= 4096, -0x100_0000_0000 <= pos.x <= 0x100_0000_0000;
        assert(-0x10_0000_0000_0000 <= (pos.y as int) * (tile_w as int)
            <= 0x10_0000_0000_0000) by (nonlinear_arith)
            requires 1 <= tile_w <= 4096, -0x100_0000_0000 <= pos.y <= 0x100_0000_0000;
    }
    GridPos {
        x: round_div(pos.x * tile_h - pos.y * tile_w, 4 * tile_w * tile_h),
        y: round_div(-(pos.y * tile_w) - pos.x * tile_h, 4 * tile_w * tile_h),
    }
}

/// Projecting a valid orthogonal grid position and unprojecting the result
/// returns the original position.
pub proof fn lemma_unproject_project_ortho(px: int, py: int, tw: int, th: int)
    requires
        tw > 0,
        th > 0,
    ensures
        spec_unproject_ortho(
            spec_project_ortho(px, py, tw, th).0,
            spec_project_ortho(px, py, tw, th).1,
            tw,
            th,
        ) == (px, py),
{
    assert(4 * tw * px == (4 * tw) * px) by (nonlinear_arith);
    lemma_round_div_exact(px, 4 * tw);
    assert(-(-4 * th * py) == (4 * th) * py) by (nonlinear_arith);
    lemma_round_div_exact(py, 4 * th);
}

/// Projecting a valid isometric grid position and unprojecting the result
/// returns the original position.
pub proof fn lemma_unproject_project_iso(px: int, py: int, tw: int, th: int)
    requires
        tw > 0,
        th > 0,
    ensures
        spec_unproject_iso(
            spec_project_iso(px, py, tw, th).0,
            spec_project_iso(px, py, tw, th).1,
            tw,
            th,
        ) == (px, py),
{
    assert((2 * tw * (px - py)) * th - (-(2 * th * (px + py))) * tw == (4 * tw * th) * px)
        by (nonlinear_arith);
    assert(-((-(2 * th * (px + py))) * tw) - (2 * tw * (px - py)) * th == (4 * tw * th) * py)
        by (nonlinear_arith);
    assert(4 * tw * th > 0) by (nonlinear_arith)
        requires tw > 0 && th > 0;
    lemma_round_div_exact(px, 4 * tw * th);
    lemma_round_div_exact(py, 4 * tw * th);
}

/// The projection of the map's centre point `(width / 2, height / 2)`,
/// in subpixel steps, or `None` for an unsupported orientation.
pub open spec fn spec_map_center(
    orientation: Orientation,
    width: int,
    height: int,
    tile_w: int,
    tile_h: int,
) -> Option<WorldPos> {
    if orientation == Orientation::Orthogonal {
        Some(
            WorldPos {
                x: (2 * tile_w * width) as i64,
                y: (-(2 * tile_h * height)) as i64,
            },
        )
    } else if orientation == Orientation::Isometric {
        Some(
            WorldPos {
                x: (tile_w * (width - height)) as i64,
                y: (-(tile_h * (width + height))) as i64,
            },
        )
    } else {
        None
    }
}

/// The projection of the map's centre point `(width / 2, height / 2)`,
/// in subpixel steps, or `None` for an unsupported orientation.  Centring a
/// map translates everything by the negation of this point.
pub fn map_center(
    orientation: Orientation,
    width: u32,
    height: u32,
    tile_w: i64,
    tile_h: i64,
) -> (r: Option<WorldPos>)
    requires
        1 <= tile_w <= MAX_TILE_DIM,
        1 <= tile_h <= MAX_TILE_DIM,
        width <= MAX_GRID,
        height <= MAX_GRID,
    ensures
        r == spec_map_center(
            orientation,
            width as int,
            height as int,
            tile_w as int,
            tile_h as int,
        ),
{
    proof {
        assert(0 <= 2 * (tile_w as int) * (width as int) <= 0x2000_0000_0000) by (nonlinear_arith)
            requires 1 <= tile_w <= 4096, 0 <= width <= 0x10_0000;
        assert(0 <= 2 * (tile_h as int) * (height as int) <= 0x2000_0000_0000) by (nonlinear_arith)
            requires 1 <= tile_h <= 4096, 0 <= height <= 0x10_0000;
        assert(-0x1000_0000_0000 <= (tile_w as int) * (width - height) <= 0x1000_0000_0000)
            by (nonlinear_arith)
            requires 1 <= tile_w <= 4096, 0 <= width <= 0x10_0000, 0 <= height <= 0x10_0000;
        assert(0 <= (tile_h as int) * (width + height) <= 0x2000_0000_0000) by (nonlinear_arith)
            requires 1 <= tile_h <= 4096, 0 <= width <= 0x10_0000, 0 <= height <= 0x10_0000;
    }
    match orientation {
        Orientation::Orthogonal => Some(
            WorldPos { x: 2 * tile_w * (width as i64), y: -(2 * tile_h * (height as i64)) },
        ),
        Orientation::Isometric => Some(
            WorldPos {
                x: tile_w * (width as i64 - height as i64),
                y: -(tile_h * (width as i64 + height as i64)),
            },
        ),
        Orientation::Staggered => None,
        Orientation::Hexagonal => None,
    }
}

} // verus!
