use tiled_mesh::animation::{Animation, Frame};

fn two_frame_clock() -> Animation {
    Animation::new(
        vec![Frame { tile_id: 7, duration_ms: 100 }, Frame { tile_id: 8, duration_ms: 50 }],
        1000,
    )
}

#[test]
fn clock_starts_at_frame_zero() {
    let a = two_frame_clock();
    assert_eq!(a.current_frame, 0);
    assert_eq!(a.last_update_ms, 1000);
}

#[test]
fn no_transition_before_the_duration_passes() {
    let mut a = two_frame_clock();
    assert_eq!(a.advance(1050), None);
    assert_eq!(a.current_frame, 0);
    assert_eq!(a.last_update_ms, 1000);
    // Exactly the duration is not yet past it.
    assert_eq!(a.advance(1100), None);
    assert_eq!(a.current_frame, 0);
}

#[test]
fn transition_steps_and_restarts_the_clock() {
    let mut a = two_frame_clock();
    let shown = a.advance(1101);
    assert_eq!(shown, Some(7));
    assert_eq!(a.current_frame, 1);
    assert_eq!(a.last_update_ms, 1101);
}

#[test]
fn wrap_past_the_last_frame() {
    let mut a = two_frame_clock();
    assert!(a.advance(1101).is_some());
    let shown = a.advance(1152);
    assert_eq!(shown, Some(8));
    assert_eq!(a.current_frame, 0);
    assert_eq!(a.last_update_ms, 1152);
}

#[test]
fn single_frame_animation_wraps_to_itself() {
    let mut a = Animation::new(vec![Frame { tile_id: 3, duration_ms: 10 }], 0);
    assert_eq!(a.advance(11), Some(3));
    assert_eq!(a.current_frame, 0);
}
