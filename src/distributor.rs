//! Fan-out of one frame-processing job over the secondary cores.
use vstd::arithmetic::div_mod::{lemma_fundamental_div_mod, lemma_fundamental_div_mod_converse};
use vstd::arithmetic::mul::lemma_mul_inequality;
use vstd::prelude::*;

verus! {

/// Width of the upscaled output frame, in pixels.
pub const SCALED_W: usize = 1024;

/// Height of the upscaled output frame, in rows.
pub const SCALED_H: usize = 960;

/// Most secondary cores that take part in one round.
pub const MAX_WORKERS: usize = 8;

/// How many workers a round uses when `cpus` cores are online, the boot core
/// excluded: the number of secondary cores, capped at `MAX_WORKERS` and rounded
/// down to an even number; zero when fewer than two would remain.
pub open spec fn worker_count_for(cpus: nat) -> nat {
    if cpus < 3 {
        0
    } else {
        let aps: nat = if cpus - 1 > MAX_WORKERS { MAX_WORKERS as nat } else { (cpus - 1) as nat };
        let even: nat = (aps - aps % 2) as nat;
        if even < 2 { 0 } else { even }
    }
}

/// Number of workers for a round on a machine with `cpus` cores (boot core included).
pub fn choose_worker_count_excluding_bsp(cpus: usize) -> (r: usize)
    ensures
        r as nat == worker_count_for(cpus as nat),
{
    if cpus < 3 {
        return 0;
    }
    let mut available_aps: usize = cpus - 1;
    if available_aps > MAX_WORKERS {
        available_aps = MAX_WORKERS;
    }
    if available_aps % 2 == 1 {
        available_aps = available_aps - 1;
    }
    if available_aps < 2 {
        return 0;
    }
    available_aps
}


/// First row of worker `k`'s stripe when `height` rows are split in `parts`.
pub open spec fn stripe_start(k: nat, parts: nat, height: nat) -> nat {
    k * (height / parts)
}

/// One past the last row of worker `k`'s stripe; the last worker takes the rest.
pub open spec fn stripe_end(k: nat, parts: nat, height: nat) -> nat {
    if k + 1 == parts {
        height
    } else {
        (k + 1) * (height / parts)
    }
}

/// The one worker whose stripe holds row `y`.
pub open spec fn stripe_owner(y: nat, parts: nat, height: nat) -> nat {
    let s = height / parts;
    if s == 0 {
        (parts - 1) as nat
    } else if y / s >= parts - 1 {
        (parts - 1) as nat
    } else {
        y / s
    }
}

/// Row `y` lies in worker `k`'s stripe.
pub open spec fn in_stripe(y: nat, k: nat, parts: nat, height: nat) -> bool {
    stripe_start(k, parts, height) <= y < stripe_end(k, parts, height)
}

proof fn lemma_stripe_bounds(k: nat, parts: nat, height: nat)
    requires
        k < parts,
    ensures
        stripe_start(k, parts, height) <= stripe_end(k, parts, height) <= height,
{
    let s = height / parts;
    lemma_fundamental_div_mod(height as int, parts as int);
    assert(parts * s <= height);
    lemma_mul_inequality(k as int, (k + 1) as int, s as int);
    lemma_mul_inequality((k + 1) as int, parts as int, s as int);
    assert((k + 1) * s <= parts * s) by (nonlinear_arith)
        requires
            (k + 1) as int * s as int <= parts as int * s as int,
    ;
}

/// The stripes of a round cover the rows below `height` without overlap: row
/// `y` lies in the stripe of worker `k` exactly when `k` is its owner.
pub proof fn lemma_stripes_partition_rows(parts: nat, height: nat, y: nat, k: nat)
    requires
        0 < parts,
        y < height,
        k < parts,
    ensures
        in_stripe(y, k, parts, height) <==> k == stripe_owner(y, parts, height),
        stripe_owner(y, parts, height) < parts,
{
    let s = height / parts;
    if s > 0 {
        let q = y / s;
        lemma_fundamental_div_mod(y as int, s as int);
        assert(q * s <= y < (q + 1) * s) by (nonlinear_arith)
            requires
                y == s * q + y % s,
                0 <= y % s < s,
        ;
        if k + 1 == parts {
            if q >= parts - 1 {
                lemma_mul_inequality(k as int, q as int, s as int);
            } else {
                lemma_mul_inequality((q + 1) as int, k as int, s as int);
            }
        } else {
            if k * s <= y && y < (k + 1) * s {
                assert((k + 1) * s == k * s + s) by (nonlinear_arith);
                lemma_fundamental_div_mod_converse(y as int, s as int, k as int, y - k * s);
            }
        }
    }
}

/// Row range `[first, end)` of worker `index` out of `parts` over the output height.
pub fn stripe_rows(index: usize, parts: usize) -> (r: (usize, usize))
    requires
        index < parts,
    ensures
        r.0 as nat == stripe_start(index as nat, parts as nat, SCALED_H as nat),
        r.1 as nat == stripe_end(index as nat, parts as nat, SCALED_H as nat),
        r.0 <= r.1 <= SCALED_H,
{
    proof {
        lemma_stripe_bounds(index as nat, parts as nat, SCALED_H as nat);
    }
    let stripe_h = SCALED_H / parts;
    let first = index * stripe_h;
    let end = if index + 1 == parts {
        SCALED_H
    } else {
        (index + 1) * stripe_h
    };
    (first, end)
}


/// Width of a source frame, in pixels.
pub const SRC_W: usize = 256;

/// Height of a source frame, in rows.
pub const SRC_H: usize = 240;

/// Output pixel `(y, x)` of the 4x nearest-neighbour upscale of `src`.
pub open spec fn upscaled_pixel(src: [[u32; 256]; 240], y: int, x: int) -> u32 {
    src@[y / 4]@[x / 4]
}

/// Pixel `(y, x)` of a row-major output frame.
pub open spec fn scaled_pixel_at(out: Seq<u32>, y: int, x: int) -> u32 {
    out[y * SCALED_W + x]
}

/// Rows `[first, end)` of `out` hold the upscale of `src`.
pub open spec fn rows_upscaled(src: [[u32; 256]; 240], out: Seq<u32>, first: int, end: int) -> bool {
    forall|y: int, x: int|
        first <= y < end && 0 <= x < SCALED_W ==> #[trigger] scaled_pixel_at(out, y, x)
            == upscaled_pixel(src, y, x)
}

/// Output row `y` of the upscale of `src`.
pub fn scaled_row(src: &[[u32; 256]; 240], y: usize) -> (row: Vec<u32>)
    requires
        y < SCALED_H,
    ensures
        row@.len() == SCALED_W,
        forall|x: int| 0 <= x < SCALED_W ==> row@[x] == upscaled_pixel(*src, y as int, x),
{
    let mut row: Vec<u32> = Vec::with_capacity(SCALED_W);
    let mut x: usize = 0;
    while x < SCALED_W
        invariant
            y < SCALED_H,
            x <= SCALED_W,
            row@.len() == x,
            forall|i: int| 0 <= i < x ==> row@[i] == upscaled_pixel(*src, y as int, i),
        decreases SCALED_W - x,
    {
        row.push(src[y / 4][x / 4]);
        x = x + 1;
    }
    row
}

/// Writes rows `[first, end)` of the upscale of `src` into the output frame
/// `dst` and leaves every other row as it was.
pub fn render_stripe(src: &[[u32; 256]; 240], dst: &mut Vec<u32>, first: usize, end: usize)
    requires
        old(dst)@.len() == SCALED_W * SCALED_H,
        first <= end <= SCALED_H,
    ensures
        final(dst)@.len() == SCALED_W * SCALED_H,
        rows_upscaled(*src, final(dst)@, first as int, end as int),
        forall|i: int|
            0 <= i < SCALED_W * SCALED_H && !(first * SCALED_W <= i < end * SCALED_W)
                ==> final(dst)@[i] == old(dst)@[i],
{
    let mut y: usize = first;
    while y < end
        invariant
            first <= y <= end <= SCALED_H,
            old(dst)@.len() == SCALED_W * SCALED_H,
            dst@.len() == SCALED_W * SCALED_H,
            rows_upscaled(*src, dst@, first as int, y as int),
            forall|i: int|
                0 <= i < SCALED_W * SCALED_H && !(first * SCALED_W <= i < y * SCALED_W)
                    ==> dst@[i] == old(dst)@[i],
        decreases end - y,
    {
        let row = scaled_row(src, y);
        let base = y * SCALED_W;
        let mut x: usize = 0;
        while x < SCALED_W
            invariant
                first <= y < end <= SCALED_H,
                base == y * SCALED_W,
                x <= SCALED_W,
                row@.len() == SCALED_W,
                forall|c: int| 0 <= c < SCALED_W ==> row@[c] == upscaled_pixel(*src, y as int, c),
                old(dst)@.len() == SCALED_W * SCALED_H,
                dst@.len() == SCALED_W * SCALED_H,
                rows_upscaled(*src, dst@, first as int, y as int),
                forall|c: int| 0 <= c < x ==> #[trigger] dst@[base + c] == row@[c],
                forall|i: int|
                    0 <= i < SCALED_W * SCALED_H && !(first * SCALED_W <= i < y * SCALED_W + x)
                        ==> dst@[i] == old(dst)@[i],
            decreases SCALED_W - x,
        {
            let ghost before = dst@;
            dst.set(base + x, row[x]);
            assert forall|r: int, c: int| first <= r < y && 0 <= c < SCALED_W implies
                #[trigger] scaled_pixel_at(dst@, r, c) == upscaled_pixel(*src, r, c) by {
                assert(scaled_pixel_at(before, r, c) == upscaled_pixel(*src, r, c));
            }
            x = x + 1;
        }
        assert forall|r: int, c: int| first <= r < y + 1 && 0 <= c < SCALED_W implies
            #[trigger] scaled_pixel_at(dst@, r, c) == upscaled_pixel(*src, r, c) by {
            if r == y {
                assert(dst@[base + c] == row@[c]);
            } else {
                assert(r * SCALED_W + c < y * SCALED_W) by (nonlinear_arith)
                    requires r < y, c < SCALED_W;
            }
        }
        y = y + 1;
    }
}


/// The work descriptor of one round, as the producer publishes it and as a
/// worker reads it.
pub struct FrameWork {
    /// Bumped once per round; workers notice a round by a change of it.
    pub seq: u64,
    /// Address of the source frame of the round.
    pub src_ptr: usize,
    /// Number of workers in the round.
    pub parts: usize,
    /// Workers of the round that have not reported yet.
    pub pending: usize,
    /// Column of the display at which the finished frame is placed.
    pub start_col: usize,
}

/// `seq` after one round is published.
pub open spec fn next_seq(seq: u64) -> u64 {
    if seq == u64::MAX {
        0
    } else {
        (seq + 1) as u64
    }
}

/// What a worker does after one look at the descriptor.
#[derive(PartialEq, Eq, Structural, Debug, Clone, Copy)]
pub enum WorkerStep {
    /// The sequence has not moved: poll again.
    Wait,
    /// A new round that this worker takes no part in.
    Skip { seq: u64 },
    /// A round without a source frame: report the part done without rendering.
    Release { seq: u64 },
    /// Render output rows `[first_row, end_row)` of the frame at `src_ptr`,
    /// then report the part done.
    Render { seq: u64, first_row: usize, end_row: usize, src_ptr: usize, start_col: usize },
}

/// Worker index of the core at position `core_index` of the firmware's CPU
/// list; the boot core, at position 0, is no worker.
pub fn worker_index_of(core_index: usize) -> (r: Option<usize>)
    ensures
        core_index == 0 ==> r is None,
        core_index > 0 ==> r == Some((core_index - 1) as usize),
{
    if core_index == 0 {
        None
    } else {
        Some(core_index - 1)
    }
}

/// Whether the report that saw `previous_pending` workers outstanding was the
/// last of its round, so that its worker hands the frame to the display.
pub fn completes_round(previous_pending: usize) -> (r: bool)
    ensures
        r == (previous_pending == 1),
{
    previous_pending == 1
}

impl FrameWork {
    /// A descriptor before the first round: every field zero.
    pub fn new() -> (r: Self)
        ensures
            r.seq == 0,
            r.src_ptr == 0,
            r.parts == 0,
            r.pending == 0,
            r.start_col == 0,
    {
        FrameWork { seq: 0, src_ptr: 0, parts: 0, pending: 0, start_col: 0 }
    }

    /// Producer side: stores the parameters of a round of `parts` workers and
    /// then moves the sequence on, which announces the round.
    pub fn publish(&mut self, src_ptr: usize, start_col: usize, parts: usize)
        ensures
            final(self).src_ptr == src_ptr,
            final(self).start_col == start_col,
            final(self).parts == parts,
            final(self).pending == parts,
            final(self).seq == next_seq(old(self).seq),
    {
        self.src_ptr = src_ptr;
        self.start_col = start_col;
        self.parts = parts;
        self.pending = parts;
        self.seq = self.seq.wrapping_add(1);
    }

    /// Worker side: what worker `worker` (none for a core that is no worker)
    /// does on reading this descriptor after last seeing sequence `last_seen`.
    pub fn worker_step(&self, last_seen: u64, worker: Option<usize>) -> (r: WorkerStep)
        ensures
            self.seq == last_seen ==> r == WorkerStep::Wait,
            self.seq != last_seen && (self.parts == 0 || worker is None || worker.unwrap()
                >= self.parts) ==> r == (WorkerStep::Skip { seq: self.seq }),
            self.seq != last_seen && worker is Some && worker.unwrap() < self.parts
                && self.src_ptr == 0 ==> r == (WorkerStep::Release { seq: self.seq }),
            self.seq != last_seen && worker is Some && worker.unwrap() < self.parts
                && self.src_ptr != 0 ==> r == (WorkerStep::Render {
                seq: self.seq,
                first_row: stripe_start(worker.unwrap() as nat, self.parts as nat, SCALED_H as nat)
                    as usize,
                end_row: stripe_end(worker.unwrap() as nat, self.parts as nat, SCALED_H as nat)
                    as usize,
                src_ptr: self.src_ptr,
                start_col: self.start_col,
            }),
    {
        if self.seq == last_seen {
            return WorkerStep::Wait;
        }
        let seq = self.seq;
        if self.parts == 0 {
            return WorkerStep::Skip { seq };
        }
        match worker {
            None => WorkerStep::Skip { seq },
            Some(index) => {
                if index >= self.parts {
                    WorkerStep::Skip { seq }
                } else if self.src_ptr == 0 {
                    WorkerStep::Release { seq }
                } else {
                    let (first_row, end_row) = stripe_rows(index, self.parts);
                    WorkerStep::Render {
                        seq,
                        first_row,
                        end_row,
                        src_ptr: self.src_ptr,
                        start_col: self.start_col,
                    }
                }
            },
        }
    }

    /// Worker side: reports one part of the round done. True for the one report
    /// that brings `pending` to zero.
    pub fn finish_part(&mut self) -> (last: bool)
        requires
            old(self).pending > 0,
        ensures
            final(self).pending == old(self).pending - 1,
            final(self).seq == old(self).seq,
            final(self).src_ptr == old(self).src_ptr,
            final(self).parts == old(self).parts,
            final(self).start_col == old(self).start_col,
            last == (old(self).pending == 1),
    {
        let previous = self.pending;
        self.pending = previous - 1;
        completes_round(previous)
    }
}

impl FrameWork {
    /// One whole round with every worker run in turn on the calling core: the
    /// producer publishes, each worker of `0..worker_count` takes its step and
    /// reports, and the call returns once `pending` is zero. Fewer than two
    /// workers is no round: nothing is published or written. Returns the
    /// worker whose report completed a rendered round, the one that hands the
    /// frame to the display; a round without a source frame (address 0) is
    /// reported done without rendering, and nobody hands anything on.
    pub fn distribute_frame(
        &mut self,
        src: &[[u32; 256]; 240],
        src_ptr: usize,
        start_col: usize,
        worker_count: usize,
        dst: &mut Vec<u32>,
    ) -> (flusher: Option<usize>)
        requires
            old(dst)@.len() == SCALED_W * SCALED_H,
        ensures
            final(dst)@.len() == SCALED_W * SCALED_H,
            worker_count < 2 ==> flusher is None && *final(self) == *old(self) && final(dst)@
                == old(dst)@,
            worker_count >= 2 ==> {
                &&& src_ptr != 0 ==> flusher == Some((worker_count - 1) as usize)
                &&& src_ptr == 0 ==> flusher is None
                &&& final(self).pending == 0
                &&& final(self).parts == worker_count
                &&& final(self).src_ptr == src_ptr
                &&& final(self).start_col == start_col
                &&& final(self).seq == next_seq(old(self).seq)
                &&& src_ptr != 0 ==> rows_upscaled(*src, final(dst)@, 0, SCALED_H as int)
                &&& src_ptr == 0 ==> final(dst)@ == old(dst)@
            },
    {
        if worker_count < 2 {
            return None;
        }
        let last_seen = self.seq;
        self.publish(src_ptr, start_col, worker_count);
        let mut flusher: Option<usize> = None;
        let mut k: usize = 0;
        while k < worker_count
            invariant
                2 <= worker_count,
                k <= worker_count,
                self.seq == next_seq(last_seen),
                self.parts == worker_count,
                self.pending == worker_count - k,
                self.src_ptr == src_ptr,
                self.start_col == start_col,
                dst@.len() == SCALED_W * SCALED_H,
                src_ptr != 0 ==> rows_upscaled(
                    *src,
                    dst@,
                    0,
                    stripe_start(k as nat, worker_count as nat, SCALED_H as nat) as int,
                ),
                src_ptr != 0 && k == worker_count ==> rows_upscaled(*src, dst@, 0, SCALED_H as int),
                src_ptr == 0 ==> dst@ == old(dst)@,
                k < worker_count ==> flusher is None,
                k == worker_count && src_ptr != 0 ==> flusher == Some((worker_count - 1) as usize),
                src_ptr == 0 ==> flusher is None,
            decreases worker_count - k,
        {
            proof {
                lemma_stripe_bounds(k as nat, worker_count as nat, SCALED_H as nat);
            }
            let step = self.worker_step(last_seen, Some(k));
            let rendered = match step {
                WorkerStep::Render { first_row, end_row, .. } => {
                    let ghost before = dst@;
                    render_stripe(src, dst, first_row, end_row);
                    assert forall|r: int, c: int| 0 <= r < end_row && 0 <= c < SCALED_W implies
                        #[trigger] scaled_pixel_at(dst@, r, c) == upscaled_pixel(*src, r, c) by {
                        if r < first_row {
                            assert(r * SCALED_W + c < first_row * SCALED_W) by (nonlinear_arith)
                                requires r < first_row, c < SCALED_W;
                            assert(scaled_pixel_at(before, r, c) == upscaled_pixel(*src, r, c));
                        }
                    }
                    if k + 1 < worker_count {
                        assert(stripe_end(k as nat, worker_count as nat, SCALED_H as nat)
                            == stripe_start((k + 1) as nat, worker_count as nat, SCALED_H as nat));
                    } else {
                        proof {
                            lemma_fundamental_div_mod(SCALED_H as int, worker_count as int);
                        }
                        assert(stripe_start((k + 1) as nat, worker_count as nat, SCALED_H as nat)
                            <= SCALED_H);
                    }
                    true
                },
                _ => false,
            };
            let last = self.finish_part();
            if last && rendered {
                flusher = Some(k);
            }
            k = k + 1;
        }
        flusher
    }
}

} // verus!
