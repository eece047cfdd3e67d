use kernel_core::distributor::{
    choose_worker_count_excluding_bsp, completes_round, render_stripe, scaled_row, stripe_rows,
    worker_index_of, FrameWork, WorkerStep, SCALED_H, SCALED_W,
};
use kernel_core::screen::Screen;

fn pattern() -> Box<[[u32; 256]; 240]> {
    let mut src = Box::new([[0u32; 256]; 240]);
    for y in 0..240 {
        for x in 0..256 {
            src[y][x] = ((y as u32) << 16) | x as u32;
        }
    }
    src
}

fn assert_upscaled(src: &[[u32; 256]; 240], out: &[u32]) {
    for y in 0..SCALED_H {
        for x in 0..SCALED_W {
            assert_eq!(out[y * SCALED_W + x], src[y / 4][x / 4], "pixel {} {}", y, x);
        }
    }
}

#[test]
fn four_parts_split_960_rows_evenly() {
    assert_eq!(stripe_rows(0, 4), (0, 240));
    assert_eq!(stripe_rows(1, 4), (240, 480));
    assert_eq!(stripe_rows(2, 4), (480, 720));
    assert_eq!(stripe_rows(3, 4), (720, 960));
}

#[test]
fn stripes_cover_every_row_once() {
    for parts in 1..=12usize {
        let mut owners = vec![0u32; SCALED_H];
        for k in 0..parts {
            let (a, b) = stripe_rows(k, parts);
            for y in a..b {
                owners[y] += 1;
            }
        }
        assert!(owners.iter().all(|&n| n == 1), "parts {}", parts);
    }
    // Seven parts do not divide 960: the last stripe takes the remainder.
    assert_eq!(stripe_rows(6, 7), (822, 960));
}

#[test]
fn worker_count_by_core_count() {
    let expected = [0, 0, 0, 2, 2, 4, 4, 6, 6, 8, 8, 8, 8];
    for (cpus, want) in expected.iter().enumerate() {
        assert_eq!(choose_worker_count_excluding_bsp(cpus), *want, "cpus {}", cpus);
    }
    assert_eq!(choose_worker_count_excluding_bsp(usize::MAX), 8);
}

#[test]
fn scaled_row_repeats_each_pixel_four_times() {
    let src = pattern();
    let row = scaled_row(&src, 9);
    assert_eq!(row.len(), 1024);
    assert_eq!(row[0], (2 << 16) | 0);
    assert_eq!(row[7], (2 << 16) | 1);
    assert_eq!(row[1023], (2 << 16) | 255);
}

#[test]
fn render_stripe_touches_only_its_rows() {
    let src = pattern();
    let mut out = vec![7u32; SCALED_W * SCALED_H];
    render_stripe(&src, &mut out, 240, 480);
    assert_eq!(out[239 * SCALED_W + 5], 7);
    assert_eq!(out[480 * SCALED_W], 7);
    assert_eq!(out[240 * SCALED_W + 5], (60 << 16) | 1);
    assert_eq!(out[479 * SCALED_W + 1023], (119 << 16) | 255);
}

#[test]
fn worker_steps_follow_the_descriptor() {
    let mut work = FrameWork::new();
    assert_eq!(work.worker_step(0, Some(0)), WorkerStep::Wait);
    work.publish(0x5000, 320, 4);
    assert_eq!(work.seq, 1);
    assert_eq!(work.pending, 4);
    assert_eq!(
        work.worker_step(0, Some(2)),
        WorkerStep::Render { seq: 1, first_row: 480, end_row: 720, src_ptr: 0x5000, start_col: 320 }
    );
    assert_eq!(work.worker_step(0, Some(4)), WorkerStep::Skip { seq: 1 });
    assert_eq!(work.worker_step(0, None), WorkerStep::Skip { seq: 1 });
    assert_eq!(work.worker_step(1, Some(0)), WorkerStep::Wait);
    work.publish(0, 320, 2);
    assert_eq!(work.worker_step(1, Some(1)), WorkerStep::Release { seq: 2 });
    assert!(!work.finish_part());
    assert!(work.finish_part());
    assert_eq!(work.pending, 0);
}

#[test]
fn worker_index_and_round_completion() {
    assert_eq!(worker_index_of(0), None);
    assert_eq!(worker_index_of(1), Some(0));
    assert_eq!(worker_index_of(8), Some(7));
    assert!(completes_round(1));
    assert!(!completes_round(2));
    assert!(!completes_round(0));
}

#[test]
fn sequence_wraps_around() {
    let mut work = FrameWork::new();
    work.seq = u64::MAX;
    work.publish(1, 0, 2);
    assert_eq!(work.seq, 0);
}

#[test]
fn full_round_upscales_every_row_and_empties_pending() {
    let src = pattern();
    for workers in [2usize, 4, 6, 8] {
        let mut work = FrameWork::new();
        let mut out = vec![0u32; SCALED_W * SCALED_H];
        let flusher = work.distribute_frame(&src, 0x1000, 320, workers, &mut out);
        assert_eq!(flusher, Some(workers - 1));
        assert_eq!(work.pending, 0);
        assert_eq!(work.parts, workers);
        assert_eq!(work.seq, 1);
        assert_upscaled(&src, &out);
    }
}

#[test]
fn too_few_workers_change_nothing() {
    let src = pattern();
    for workers in [0usize, 1] {
        let mut work = FrameWork::new();
        work.seq = 5;
        let mut out = vec![3u32; SCALED_W * SCALED_H];
        assert_eq!(work.distribute_frame(&src, 0x1000, 320, workers, &mut out), None);
        assert_eq!(work.seq, 5);
        assert_eq!(work.pending, 0);
        assert!(out.iter().all(|&p| p == 3));
    }
}

#[test]
fn screen_round_on_nine_cores() {
    let src = pattern();
    let mut screen = Screen::new();
    assert_eq!(screen.start_column(), 320);
    let mut work = FrameWork::new();
    let mut out = vec![0u32; SCALED_W * SCALED_H];
    let mut frames = 0u32;
    let flusher = screen.write_buffer(&src, 0x2000, 9, &mut work, &mut out, &mut frames);
    assert_eq!(flusher, Some(7));
    assert_eq!(work.parts, 8);
    assert_eq!(work.start_col, 320);
    assert_eq!(frames, 1);
    assert_upscaled(&src, &out);
}

#[test]
fn screen_round_skipped_on_two_cores() {
    let src = pattern();
    let mut screen = Screen::new();
    let mut work = FrameWork::new();
    let mut out = vec![0u32; SCALED_W * SCALED_H];
    let mut frames = 4u32;
    assert_eq!(screen.write_buffer(&src, 0x2000, 2, &mut work, &mut out, &mut frames), None);
    assert_eq!(frames, 4);
    assert_eq!(work.seq, 0);
    assert!(out.iter().all(|&p| p == 0));
}

#[test]
fn single_core_render() {
    let src = pattern();
    let mut screen = Screen::new();
    let mut out = vec![0u32; SCALED_W * SCALED_H];
    let mut frames = u32::MAX;
    screen.write_buffer_single(&src, &mut out, &mut frames);
    assert_eq!(frames, 0);
    assert_upscaled(&src, &out);
}

#[test]
fn round_without_source_frame_renders_and_flushes_nothing() {
    let src = pattern();
    let mut work = FrameWork::new();
    let mut out = vec![9u32; SCALED_W * SCALED_H];
    assert_eq!(work.distribute_frame(&src, 0, 320, 4, &mut out), None);
    assert_eq!(work.pending, 0);
    assert_eq!(work.seq, 1);
    assert!(out.iter().all(|&p| p == 9));
    let mut screen = Screen::new();
    let mut frames = 2u32;
    assert_eq!(screen.write_buffer(&src, 0, 9, &mut work, &mut out, &mut frames), None);
    assert_eq!(frames, 2);
    assert_eq!(work.seq, 2);
    assert!(out.iter().all(|&p| p == 9));
}
