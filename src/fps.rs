//! Frames-per-second accounting, driven by the periodic timer.
use vstd::prelude::*;

verus! {

/// Timer ticks between two readings of the frame rate.
pub const TICKS_PER_READING: u32 = 100;

/// `n + 1`, wrapping at 2^32.
pub open spec fn wrapping_inc(n: u32) -> u32 {
    if n == u32::MAX {
        0
    } else {
        (n + 1) as u32
    }
}

/// Counts one rendered frame into `frame_count`, wrapping at 2^32.
pub fn increment_frame_count(frame_count: &mut u32)
    ensures
        *final(frame_count) == wrapping_inc(*old(frame_count)),
{
    *frame_count = frame_count.wrapping_add(1);
}

/// Turns timer ticks and rendered frames into a frame rate.
pub struct FpsCounter {
    last_print_ticks: u32,
    ticks: u32,
    last_fps: u32,
}

impl FpsCounter {
    /// Ticks counted so far, wrapping at 2^32.
    pub closed spec fn ticks(&self) -> u32 {
        self.ticks
    }

    /// Tick count at the last reading.
    pub closed spec fn last_print_ticks(&self) -> u32 {
        self.last_print_ticks
    }

    /// Frames counted over the last reading's interval.
    pub closed spec fn last_fps(&self) -> u32 {
        self.last_fps
    }

    /// A counter with no tick and no reading yet.
    pub fn new() -> (r: Self)
        ensures
            r.ticks() == 0,
            r.last_print_ticks() == 0,
            r.last_fps() == 0,
    {
        FpsCounter { last_print_ticks: 0, ticks: 0, last_fps: 0 }
    }

    /// Frames counted over the last reading's interval.
    pub fn last_fps_value(&self) -> (r: u32)
        ensures
            r == self.last_fps(),
    {
        self.last_fps
    }

    /// Counts one timer tick. Once `TICKS_PER_READING` ticks have passed since
    /// the last reading, takes a reading: the frames in `frame_count` become the
    /// rate, returned for display, and `frame_count` starts again from zero.
    pub fn tick(&mut self, frame_count: &mut u32) -> (r: Option<u32>)
        ensures
            final(self).ticks() == wrapping_inc(old(self).ticks()),
            ((final(self).ticks() - old(self).last_print_ticks()) % 0x1_0000_0000 >= TICKS_PER_READING)
                ==> {
                &&& r == Some(*old(frame_count))
                &&& *final(frame_count) == 0
                &&& final(self).last_fps() == *old(frame_count)
                &&& final(self).last_print_ticks() == final(self).ticks()
            },
            ((final(self).ticks() - old(self).last_print_ticks()) % 0x1_0000_0000 < TICKS_PER_READING)
                ==> {
                &&& r is None
                &&& *final(frame_count) == *old(frame_count)
                &&& final(self).last_fps() == old(self).last_fps()
                &&& final(self).last_print_ticks() == old(self).last_print_ticks()
            },
    {
        self.ticks = self.ticks.wrapping_add(1);
        let ticks = self.ticks;
        if ticks.wrapping_sub(self.last_print_ticks) >= TICKS_PER_READING {
            let frames = *frame_count;
            *frame_count = 0;
            self.last_fps = frames;
            self.last_print_ticks = ticks;
            Some(frames)
        } else {
            None
        }
    }
}

} // verus!
