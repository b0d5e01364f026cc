//! The per-frame lifecycle decisions: whether the loop keeps running after
//! each frame's events, whether a vetoed shutdown re-enters the loop, and
//! the frames-per-second accounting.

use vstd::prelude::*;

use crate::engine::PixelGameEngine;

verus! {

/// The result of running the engine to completion.
#[derive(Debug, Copy, Clone, PartialEq, Eq, Structural)]
pub enum RCode {
    /// The application's create hook refused to start.
    Fail,
    /// The loop ran and shut down normally.
    Okay,
    /// A required resource file was missing.
    NoFile,
}

/// The number of microseconds in one second of accumulated frame time.
pub const MICROS_PER_SECOND: u64 = 1_000_000;

/// Accumulates frame times and counts frames; once a whole second has
/// accumulated it reports the second's frame count and carries the
/// remainder over (subtracting exactly one second, not resetting, so the
/// rate does not drift).
#[derive(Debug, Copy, Clone, PartialEq, Eq, Structural)]
pub struct FrameTimer {
    pub accum_micros: u64,
    pub frames: u32,
}

impl FrameTimer {
    pub fn new() -> (t: FrameTimer)
        ensures
            t.accum_micros == 0,
            t.frames == 0,
    {
        FrameTimer { accum_micros: 0, frames: 0 }
    }

    /// Advances by one frame: adds the frame's wall-clock time and counts
    /// the frame. When the accumulated time reaches one second, returns
    /// the frame count of that second and subtracts exactly one second.
    pub fn tick(&mut self, elapsed_micros: u64) -> (fps: Option<u32>)
        requires
            old(self).accum_micros + elapsed_micros <= u64::MAX,
            old(self).frames < u32::MAX,
        ensures
            old(self).accum_micros + elapsed_micros >= MICROS_PER_SECOND ==> {
                &&& final(self).accum_micros == old(self).accum_micros + elapsed_micros
                    - MICROS_PER_SECOND
                &&& final(self).frames == 0
                &&& fps == Some((old(self).frames + 1) as u32)
            },
            old(self).accum_micros + elapsed_micros < MICROS_PER_SECOND ==> {
                &&& final(self).accum_micros == old(self).accum_micros + elapsed_micros
                &&& final(self).frames == old(self).frames + 1
                &&& fps is None
            },
    {
        self.accum_micros = self.accum_micros + elapsed_micros;
        self.frames = self.frames + 1;
        if self.accum_micros >= MICROS_PER_SECOND {
            self.accum_micros = self.accum_micros - MICROS_PER_SECOND;
            let n = self.frames;
            self.frames = 0;
            Some(n)
        } else {
            None
        }
    }
}

impl PixelGameEngine {
    /// The frame gate, evaluated before any frame work: a closed window
    /// deactivates the loop; the frame proceeds only while the window is
    /// open.
    pub fn begin_frame(&mut self, window_open: bool) -> (proceed: bool)
        ensures
            *final(self) == (PixelGameEngine { active: final(self).active, ..*old(self) }),
            final(self).active == (old(self).active && window_open),
            proceed == window_open,
    {
        if !window_open {
            self.active = false;
        }
        window_open
    }

    /// The frame verdict, evaluated after the update hook ran and the
    /// framebuffer was presented: the loop stays active only if the hook
    /// agreed to continue and presentation succeeded.
    pub fn end_frame(&mut self, update_ok: bool, present_ok: bool)
        ensures
            *final(self) == (PixelGameEngine { active: final(self).active, ..*old(self) }),
            final(self).active == (old(self).active && update_ok && present_ok),
    {
        if !update_ok {
            self.active = false;
        }
        if !present_ok {
            self.active = false;
        }
    }

    /// The shutdown gate: a destroy hook that returns `false` while the
    /// window is still open vetoes the shutdown, and the loop re-enters
    /// the running state; otherwise the loop halts for good.
    pub fn after_destroy(&mut self, destroy_ok: bool, window_open: bool)
        ensures
            *final(self) == (PixelGameEngine { active: final(self).active, ..*old(self) }),
            final(self).active == (old(self).active || (!destroy_ok && window_open)),
    {
        if !destroy_ok && window_open {
            self.active = true;
        }
    }
}

} // verus!
