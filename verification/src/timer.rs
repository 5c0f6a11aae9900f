//! Frame timing: per-frame delta, total time, and a once-a-second frame
//! count report.
//!
//! Time is carried as whole nanoseconds. What the clock returns is outside
//! any contract — two reads may be any two instants — so the tick is split:
//! the clock is read through trusted wrappers, and the bookkeeping applied
//! to whatever delta came back is verified exactly, for every delta.

use std::io::Write;
use vstd::prelude::*;

verus! {

/// Nanoseconds in one second, the report window.
pub const NANOS_PER_SECOND: u64 = 1_000_000_000;

/// The monotonic clock's instant type, declared so it can stand in a
/// field. Instants are opaque; only the wrappers below touch them.
#[verifier::external_type_specification]
#[verifier::external_body]
pub struct ExInstant(std::time::Instant);

/// Relies on `std::time::Instant::now`: a reading of the monotonic clock.
/// Nothing is promised of it.
#[verifier::external_body]
fn instant_now() -> std::time::Instant {
    std::time::Instant::now()
}

/// Relies on `std::time::Instant::duration_since`: the time elapsed from
/// `earlier` to `later` in whole nanoseconds, zero when `later` is the
/// earlier of the two. Nothing is promised of the value.
#[verifier::external_body]
fn nanos_between(earlier: &std::time::Instant, later: &std::time::Instant) -> u64 {
    later.duration_since(*earlier).as_nanos() as u64
}

/// Relies on `std::io::stdout`: reports the frame count of the elapsed
/// one-second window.
#[verifier::external_body]
fn print_fps(frames: usize) {
    let mut out = std::io::stdout();
    let _ = writeln!(out, "FPS {}", frames);
}

/// Addition on u64 that stops at the maximum instead of wrapping.
pub open spec fn saturating_add_u64(a: u64, b: u64) -> u64 {
    if a + b <= u64::MAX {
        (a + b) as u64
    } else {
        u64::MAX
    }
}

/// Frame timing state. The integer fields are what one tick rewrites;
/// the stored instant only feeds the next tick's delta.
pub struct Timer {
    /// The clock reading of the previous tick; feeds the next delta.
    pub last_frame_time: std::time::Instant,
    /// Nanoseconds accumulated in the current report window.
    pub fps_timer_ns: u64,
    /// Frames counted in the current report window.
    pub frames: usize,
    /// Nanoseconds the last frame took.
    pub delta_ns: u64,
    /// Nanoseconds since the timer was created, saturating.
    pub total_ns: u64,
}

/// How one tick with frame delta `delta` rewrites the timer: the delta is
/// recorded, the total advances by it, and the report window either rolls
/// over (when it held at least a second) or accumulates the delta and
/// counts the frame.
pub open spec fn tick_rel(pre: Timer, post: Timer, delta: u64) -> bool {
    &&& post.delta_ns == delta
    &&& post.total_ns == saturating_add_u64(pre.total_ns, delta)
    &&& if pre.fps_timer_ns >= NANOS_PER_SECOND {
        post.fps_timer_ns == 0 && post.frames == 0
    } else {
        post.fps_timer_ns == saturating_add_u64(pre.fps_timer_ns, delta) && post.frames == (
        if pre.frames < usize::MAX {
            pre.frames + 1
        } else {
            pre.frames as int
        })
    }
}

impl Timer {
    /// Apply one frame's delta to the bookkeeping. Returns the frame
    /// count to report when the one-second window had elapsed, `None`
    /// otherwise. This is the whole decision of a tick, verified for
    /// every delta the clock may yield.
    pub fn apply_delta(&mut self, delta_ns: u64) -> (report: Option<usize>)
        ensures
            tick_rel(*old(self), *final(self), delta_ns),
            final(self).last_frame_time == old(self).last_frame_time,
            report == (if old(self).fps_timer_ns >= NANOS_PER_SECOND {
                Some(old(self).frames)
            } else {
                None::<usize>
            }),
    {
        self.delta_ns = delta_ns;
        if self.total_ns <= u64::MAX - delta_ns {
            self.total_ns = self.total_ns + delta_ns;
        } else {
            self.total_ns = u64::MAX;
        }
        if self.fps_timer_ns >= NANOS_PER_SECOND {
            let frames = self.frames;
            self.fps_timer_ns = 0;
            self.frames = 0;
            Some(frames)
        } else {
            if self.fps_timer_ns <= u64::MAX - delta_ns {
                self.fps_timer_ns = self.fps_timer_ns + delta_ns;
            } else {
                self.fps_timer_ns = u64::MAX;
            }
            if self.frames < usize::MAX {
                self.frames = self.frames + 1;
            }
            None
        }
    }

    /// One frame elapsed: read the clock, apply the delta since the last
    /// tick, report the frame rate when a window rolled over, and
    /// remember the reading. The delta is whatever the clock yielded;
    /// the bookkeeping holds for it whatever it was.
    pub fn tick(&mut self)
        ensures
            exists|delta: u64| tick_rel(*old(self), *final(self), delta),
    {
        let now = instant_now();
        let delta = nanos_between(&self.last_frame_time, &now);
        let report = self.apply_delta(delta);
        if let Some(frames) = report {
            print_fps(frames);
        }
        self.last_frame_time = now;
        proof {
            assert(tick_rel(*old(self), *self, delta));
        }
    }
}

impl Default for Timer {
    /// A timer started now: all counters zero, the window empty.
    fn default() -> (t: Timer)
        ensures
            t.fps_timer_ns == 0,
            t.frames == 0,
            t.delta_ns == 0,
            t.total_ns == 0,
    {
        Timer {
            last_frame_time: instant_now(),
            fps_timer_ns: 0,
            frames: 0,
            delta_ns: 0,
            total_ns: 0,
        }
    }
}

} // verus!
