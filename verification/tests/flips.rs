use tiled_mesh::gid::FlipFlags;
use tiled_mesh::uv_flip::{apply_flips, UvPoint};

fn corners() -> (UvPoint, UvPoint, UvPoint, UvPoint) {
    (
        UvPoint { u: 0, v: 16 },
        UvPoint { u: 0, v: 0 },
        UvPoint { u: 16, v: 0 },
        UvPoint { u: 16, v: 16 },
    )
}

fn all_three() -> FlipFlags {
    FlipFlags { flip_h: true, flip_v: true, flip_d: true }
}

#[test]
fn no_flip_is_identity() {
    let (c0, c1, c2, c3) = corners();
    let f = FlipFlags { flip_h: false, flip_v: false, flip_d: false };
    assert_eq!(apply_flips(c0, c1, c2, c3, f), (c0, c1, c2, c3));
}

#[test]
fn diagonal_swaps_corners_0_and_2() {
    let (c0, c1, c2, c3) = corners();
    let f = FlipFlags { flip_h: false, flip_v: false, flip_d: true };
    assert_eq!(apply_flips(c0, c1, c2, c3, f), (c2, c1, c0, c3));
}

#[test]
fn horizontal_reverses() {
    let (c0, c1, c2, c3) = corners();
    let f = FlipFlags { flip_h: true, flip_v: false, flip_d: false };
    assert_eq!(apply_flips(c0, c1, c2, c3, f), (c3, c2, c1, c0));
}

#[test]
fn vertical_swaps_pairs() {
    let (c0, c1, c2, c3) = corners();
    let f = FlipFlags { flip_h: false, flip_v: true, flip_d: false };
    assert_eq!(apply_flips(c0, c1, c2, c3, f), (c1, c0, c3, c2));
}

#[test]
fn diagonal_then_horizontal_is_a_cycle() {
    // The two steps compose to a rotation, not an involution: the order of
    // application is fixed and matters.
    let (c0, c1, c2, c3) = corners();
    let f = FlipFlags { flip_h: true, flip_v: false, flip_d: true };
    assert_eq!(apply_flips(c0, c1, c2, c3, f), (c3, c0, c1, c2));
}

#[test]
fn all_three_flips_twice_restore_corners() {
    let (c0, c1, c2, c3) = corners();
    let once = apply_flips(c0, c1, c2, c3, all_three());
    let twice = apply_flips(once.0, once.1, once.2, once.3, all_three());
    assert_eq!(twice, (c0, c1, c2, c3));
}

#[test]
fn each_single_flip_twice_restores_corners() {
    let (c0, c1, c2, c3) = corners();
    for f in [
        FlipFlags { flip_h: true, flip_v: false, flip_d: false },
        FlipFlags { flip_h: false, flip_v: true, flip_d: false },
        FlipFlags { flip_h: false, flip_v: false, flip_d: true },
    ] {
        let once = apply_flips(c0, c1, c2, c3, f);
        let twice = apply_flips(once.0, once.1, once.2, once.3, f);
        assert_eq!(twice, (c0, c1, c2, c3));
    }
}
