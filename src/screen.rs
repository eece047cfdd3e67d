//! Putting a source frame on the display, upscaled 4x, by the worker cores or by
//! the calling core alone.
use crate::distributor::{
    choose_worker_count_excluding_bsp, next_seq, render_stripe, rows_upscaled, worker_count_for,
    FrameWork, SCALED_H, SCALED_W,
};
use crate::fps::{increment_frame_count, wrapping_inc};
use vstd::prelude::*;

verus! {

/// Display column at which upscaled frames are placed.
pub const SCREEN_START_COLUMN: u64 = 320;

/// Places upscaled frames on the display at a fixed column.
pub struct Screen {
    width_offset: u64,
}

impl Screen {
    /// Display column at which frames are placed.
    pub closed spec fn start_col(&self) -> u64 {
        self.width_offset
    }

    /// A screen placing frames at `SCREEN_START_COLUMN`.
    pub fn new() -> (r: Self)
        ensures
            r.start_col() == SCREEN_START_COLUMN,
    {
        Screen { width_offset: SCREEN_START_COLUMN }
    }

    /// Display column at which frames are placed.
    pub fn start_column(&self) -> (r: u64)
        ensures
            r == self.start_col(),
    {
        self.width_offset
    }

    /// Renders `buffer` (found at address `buffer_addr`) into `scaled` through
    /// one round of the worker protocol on a machine of `cpus` cores, the round
    /// returning once every worker has reported. With too few secondary cores
    /// nothing happens. When a rendered round completes, one frame is counted
    /// into `frame_count` and the worker that completed it is returned; the
    /// frame is then ready to be copied to the display at the start column. A
    /// round for address 0 renders nothing, counts nothing and names no worker.
    pub fn write_buffer(
        &mut self,
        buffer: &[[u32; 256]; 240],
        buffer_addr: usize,
        cpus: usize,
        work: &mut FrameWork,
        scaled: &mut Vec<u32>,
        frame_count: &mut u32,
    ) -> (flusher: Option<usize>)
        requires
            old(scaled)@.len() == SCALED_W * SCALED_H,
        ensures
            final(self).start_col() == old(self).start_col(),
            final(scaled)@.len() == SCALED_W * SCALED_H,
            worker_count_for(cpus as nat) == 0 ==> {
                &&& flusher is None
                &&& *final(work) == *old(work)
                &&& final(scaled)@ == old(scaled)@
                &&& *final(frame_count) == *old(frame_count)
            },
            worker_count_for(cpus as nat) != 0 ==> {
                &&& buffer_addr != 0 ==> flusher == Some((worker_count_for(cpus as nat) - 1) as usize)
                &&& buffer_addr == 0 ==> flusher is None
                &&& final(work).pending == 0
                &&& final(work).parts == worker_count_for(cpus as nat)
                &&& final(work).src_ptr == buffer_addr
                &&& final(work).start_col == old(self).start_col() as usize
                &&& final(work).seq == next_seq(old(work).seq)
                &&& buffer_addr != 0 ==> rows_upscaled(*buffer, final(scaled)@, 0, SCALED_H as int)
                &&& buffer_addr == 0 ==> final(scaled)@ == old(scaled)@
                &&& buffer_addr != 0 ==> *final(frame_count) == wrapping_inc(*old(frame_count))
                &&& buffer_addr == 0 ==> *final(frame_count) == *old(frame_count)
            },
    {
        let parts = choose_worker_count_excluding_bsp(cpus);
        if parts == 0 {
            return None;
        }
        let start_col = self.width_offset as usize;
        let flusher = work.distribute_frame(buffer, buffer_addr, start_col, parts, scaled);
        if flusher.is_some() {
            increment_frame_count(frame_count);
        }
        flusher
    }

    /// Renders `buffer` into `scaled` on the calling core alone and counts one
    /// frame into `frame_count`.
    pub fn write_buffer_single(
        &mut self,
        buffer: &[[u32; 256]; 240],
        scaled: &mut Vec<u32>,
        frame_count: &mut u32,
    )
        requires
            old(scaled)@.len() == SCALED_W * SCALED_H,
        ensures
            final(self).start_col() == old(self).start_col(),
            final(scaled)@.len() == SCALED_W * SCALED_H,
            rows_upscaled(*buffer, final(scaled)@, 0, SCALED_H as int),
            *final(frame_count) == wrapping_inc(*old(frame_count)),
    {
        render_stripe(buffer, scaled, 0, SCALED_H);
        increment_frame_count(frame_count);
    }
}

} // verus!
