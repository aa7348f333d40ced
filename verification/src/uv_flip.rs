//! Reordering of a quad's four texture corners to realise tile flips.
//!
//! A tile quad carries four texture corners, listed in the vertex order
//! bottom-left, top-left, top-right, bottom-right.  The three flip bits of a
//! gid reorder them: diagonal flip swaps corners 0 and 2 (a transpose),
//! horizontal flip reverses the four, vertical flip reverses and then swaps
//! the pairs (0, 2) and (1, 3).  The three steps are applied in that fixed
//! order — diagonal, then horizontal, then vertical — matching the flip
//! semantics of the map editor; the order matters, the steps do not commute.

use vstd::prelude::*;

use crate::gid::FlipFlags;

verus! {

/// One texture corner: pixel numerators over the sprite-sheet dimensions
/// (`u / sheet_w`, `v / sheet_h` are the real texture coordinates).
#[derive(Clone, Copy, PartialEq, Eq, Structural, Debug)]
pub struct UvPoint {
    pub u: i64,
    pub v: i64,
}

/// Diagonal flip: swap corners 0 and 2.
pub open spec fn spec_flip_diag(c: Seq<UvPoint>) -> Seq<UvPoint>
    recommends
        c.len() == 4,
{
    seq![c[2], c[1], c[0], c[3]]
}

/// Horizontal flip: reverse the four corners.
pub open spec fn spec_flip_horiz(c: Seq<UvPoint>) -> Seq<UvPoint>
    recommends
        c.len() == 4,
{
    seq![c[3], c[2], c[1], c[0]]
}

/// Vertical flip: reverse, then swap (0, 2) and (1, 3).
pub open spec fn spec_flip_vert(c: Seq<UvPoint>) -> Seq<UvPoint>
    recommends
        c.len() == 4,
{
    seq![c[1], c[0], c[3], c[2]]
}

/// The corner order after applying the requested flips: diagonal first,
/// then horizontal, then vertical.
pub open spec fn spec_apply_flips(c: Seq<UvPoint>, f: FlipFlags) -> Seq<UvPoint>
    recommends
        c.len() == 4,
{
    let d = if f.flip_d { spec_flip_diag(c) } else { c };
    let h = if f.flip_h { spec_flip_horiz(d) } else { d };
    if f.flip_v { spec_flip_vert(h) } else { h }
}

/// Applies the requested flips to the four texture corners of one quad,
/// in the fixed order diagonal, horizontal, vertical.
pub fn apply_flips(c0: UvPoint, c1: UvPoint, c2: UvPoint, c3: UvPoint, f: FlipFlags) -> (r: (
    UvPoint,
    UvPoint,
    UvPoint,
    UvPoint,
))
    ensures
        seq![r.0, r.1, r.2, r.3] == spec_apply_flips(seq![c0, c1, c2, c3], f),
{
    let (d0, d1, d2, d3) = if f.flip_d {
        (c2, c1, c0, c3)
    } else {
        (c0, c1, c2, c3)
    };
    let (h0, h1, h2, h3) = if f.flip_h {
        (d3, d2, d1, d0)
    } else {
        (d0, d1, d2, d3)
    };
    let (v0, v1, v2, v3) = if f.flip_v {
        (h1, h0, h3, h2)
    } else {
        (h0, h1, h2, h3)
    };
    proof {
        assert(seq![v0, v1, v2, v3] =~= spec_apply_flips(seq![c0, c1, c2, c3], f));
    }
    (v0, v1, v2, v3)
}

/// Applying the combined diagonal + horizontal + vertical flip twice returns
/// the original corner order: the combined transform is its own inverse.
pub proof fn lemma_flip_all_twice_identity(c: Seq<UvPoint>)
    requires
        c.len() == 4,
    ensures
        spec_apply_flips(
            spec_apply_flips(c, FlipFlags { flip_h: true, flip_v: true, flip_d: true }),
            FlipFlags { flip_h: true, flip_v: true, flip_d: true },
        ) == c,
{
    let f = FlipFlags { flip_h: true, flip_v: true, flip_d: true };
    assert(spec_apply_flips(spec_apply_flips(c, f), f) =~= c);
}

/// Each single flip is its own inverse: applying just a diagonal, just a
/// horizontal or just a vertical flip twice returns the original order.
pub proof fn lemma_single_flip_twice_identity(c: Seq<UvPoint>)
    requires
        c.len() == 4,
    ensures
        spec_flip_diag(spec_flip_diag(c)) == c,
        spec_flip_horiz(spec_flip_horiz(c)) == c,
        spec_flip_vert(spec_flip_vert(c)) == c,
{
    assert(spec_flip_diag(spec_flip_diag(c)) =~= c);
    assert(spec_flip_horiz(spec_flip_horiz(c)) =~= c);
    assert(spec_flip_vert(spec_flip_vert(c)) =~= c);
}

/// With no flip bit set the corner order is unchanged.
pub proof fn lemma_no_flip_identity(c: Seq<UvPoint>)
    requires
        c.len() == 4,
    ensures
        spec_apply_flips(c, FlipFlags { flip_h: false, flip_v: false, flip_d: false }) == c,
{
}

} // verus!
