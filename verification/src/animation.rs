//! Animation clock: advances per-tile frame state from elapsed time.
//!
//! Each animated tile instance owns a frame list and a clock state.  A step
//! compares the elapsed time against the current frame's duration and, once
//! exceeded, moves to the next frame (wrapping past the last back to 0) and
//! restarts the clock.  There is no interpolation: a transition is a hard
//! cut, and each instance is independent of every other.

use vstd::prelude::*;

verus! {

/// Information specific to one frame of a tile animation.
#[derive(Clone, Copy, PartialEq, Eq, Structural, Debug)]
pub struct Frame {
    /// Local tile id shown by this frame.
    pub tile_id: u32,
    /// Duration until the next frame, in milliseconds.
    pub duration_ms: u32,
}

/// Clock state of one animated tile instance.
pub struct Animation {
    /// The frame sequence, never empty.
    pub frames: Vec<Frame>,
    /// Index of the current frame.
    pub current_frame: usize,
    /// Clock reading at the last transition (or at creation), in
    /// milliseconds.
    pub last_update_ms: u64,
}

impl Animation {
    /// A valid clock state: at least one frame, current index in range.
    pub open spec fn wf(&self) -> bool {
        &&& self.frames.len() >= 1
        &&& self.current_frame < self.frames.len()
    }

    /// True when, at clock reading `now_ms`, the current frame's duration
    /// has been exceeded and the clock steps to the next frame.
    pub open spec fn spec_due(&self, now_ms: u64) -> bool {
        now_ms - self.last_update_ms > self.frames[self.current_frame as int].duration_ms
    }

    /// Creates the clock for a freshly spawned instance: frame 0, clock
    /// started at `now_ms`.
    pub fn new(frames: Vec<Frame>, now_ms: u64) -> (r: Animation)
        requires
            frames.len() >= 1,
        ensures
            r.wf(),
            r.frames == frames,
            r.current_frame == 0,
            r.last_update_ms == now_ms,
    {
        Animation { frames, current_frame: 0, last_update_ms: now_ms }
    }

    /// Advances the clock to the reading `now_ms`.  When the current
    /// frame's duration has been exceeded, steps to the next frame (the one
    /// past the last wraps to 0), restarts the clock and returns the tile id
    /// to display; otherwise leaves the state untouched and returns `None`.
    pub fn advance(&mut self, now_ms: u64) -> (shown: Option<u32>)
        requires
            old(self).wf(),
            old(self).last_update_ms <= now_ms,
        ensures
            final(self).wf(),
            final(self).frames == old(self).frames,
            if old(self).spec_due(now_ms) {
                &&& final(self).current_frame == if old(self).current_frame + 1
                    == old(self).frames.len() {
                    0int
                } else {
                    old(self).current_frame + 1
                }
                &&& final(self).last_update_ms == now_ms
                &&& shown == Some(
                    old(self).frames[old(self).current_frame as int].tile_id,
                )
            } else {
                &&& *final(self) == *old(self)
                &&& shown is None
            },
    {
        let frame = self.frames[self.current_frame];
        if now_ms - self.last_update_ms > frame.duration_ms as u64 {
            self.current_frame = self.current_frame + 1;
            if self.current_frame > self.frames.len() - 1 {
                self.current_frame = 0;
            }
            self.last_update_ms = now_ms;
            Some(frame.tile_id)
        } else {
            None
        }
    }
}

} // verus!
