use kernel_core::bootstrap::{choose_framebuffer, identify_core, DisplayMode};
use kernel_core::fps::{increment_frame_count, FpsCounter};
use kernel_core::QemuExitCode;

#[test]
fn first_large_enough_display_is_chosen() {
    let modes = vec![
        DisplayMode { width: 1280, height: 720 },
        DisplayMode { width: 1920, height: 1000 },
        DisplayMode { width: 2560, height: 1440 },
        DisplayMode { width: 1920, height: 1080 },
    ];
    assert_eq!(choose_framebuffer(&modes), Some(2));
    assert_eq!(choose_framebuffer(&modes[..2].to_vec()), None);
    assert_eq!(choose_framebuffer(&Vec::new()), None);
}

#[test]
fn core_identifies_by_entry_address() {
    let cpus = vec![0x1000usize, 0x1040, 0x1080, 0x10C0];
    assert_eq!(identify_core(&cpus, 0x1080), Some(2));
    assert_eq!(identify_core(&cpus, 0x1000), Some(0));
    assert_eq!(identify_core(&cpus, 0x2000), None);
}

#[test]
fn fps_reading_every_hundred_ticks() {
    let mut fps = FpsCounter::new();
    let mut frames = 0u32;
    for _ in 0..37 {
        increment_frame_count(&mut frames);
    }
    for _ in 0..99 {
        assert_eq!(fps.tick(&mut frames), None);
    }
    assert_eq!(frames, 37);
    assert_eq!(fps.tick(&mut frames), Some(37));
    assert_eq!(frames, 0);
    assert_eq!(fps.last_fps_value(), 37);
    for _ in 0..99 {
        assert_eq!(fps.tick(&mut frames), None);
    }
    assert_eq!(fps.tick(&mut frames), Some(0));
}

#[test]
fn frame_count_wraps() {
    let mut frames = u32::MAX;
    increment_frame_count(&mut frames);
    assert_eq!(frames, 0);
}

#[test]
fn exit_codes() {
    assert_eq!(QemuExitCode::Success.code(), 0x10);
    assert_eq!(QemuExitCode::Failed.code(), 0x11);
}
