use kernel_core::framebuffer::{Buffer, ByteSpan, FrameCopyError, RowCopy, ScrollPlan};

fn display() -> Buffer {
    Buffer::new(1920, 1080, 7680)
}

#[test]
fn pixel_offsets() {
    let b = display();
    assert_eq!(b.write_pixel(0, 0), Some(0));
    assert_eq!(b.write_pixel(2, 3), Some(2 * 7680 + 12));
    assert_eq!(b.write_pixel(1079, 1919), Some(1079 * 7680 + 1919 * 4));
    assert_eq!(b.write_pixel(1080, 0), None);
    assert_eq!(b.write_pixel(0, 1920), None);
}

#[test]
fn frame_copy_plan() {
    let b = display();
    let src = vec![0u32; 1024 * 960];
    let rows = b.write_frame(&src, 1024, 960, 320, 0).unwrap();
    assert_eq!(rows.len(), 960);
    assert_eq!(rows[0], RowCopy { src_start: 0, dst_offset: 1280, len: 1024 });
    assert_eq!(rows[959], RowCopy { src_start: 959 * 1024, dst_offset: 959 * 7680 + 1280, len: 1024 });
}

#[test]
fn frame_copy_errors() {
    let b = display();
    let src = vec![0u32; 100];
    assert_eq!(b.write_frame(&src, 0, 5, 0, 0).unwrap().len(), 0);
    assert_eq!(b.write_frame(&src, 10, 0, 0, 0).unwrap().len(), 0);
    assert_eq!(b.write_frame(&src, 10, 10, 1911, 0), Err(FrameCopyError::OutOfBounds));
    assert_eq!(b.write_frame(&src, 10, 10, 0, 1071), Err(FrameCopyError::OutOfBounds));
    assert_eq!(b.write_frame(&src, 10, 11, 0, 0), Err(FrameCopyError::SourceTooSmall));
    assert!(b.write_frame(&src, 10, 10, 1910, 1070).is_ok());
    // A row that is wider in bytes than the pitch is refused; it can only
    // happen on a display narrower than its own width.
    let narrow = Buffer::new(0, 4, 0);
    assert_eq!(narrow.write_frame(&src, 1, 1, 0, 0), Err(FrameCopyError::OutOfBounds));
}

#[test]
fn scroll_and_clear_plans() {
    let b = display();
    match b.scroll_lines(16) {
        ScrollPlan::Shift { from, moved, clear } => {
            assert_eq!(from, 16 * 7680);
            assert_eq!(moved, (1080 - 16) * 7680);
            assert_eq!((clear.start, clear.len), ((1080 - 16) * 7680, 16 * 7680));
        }
        _ => panic!("expected a shift"),
    }
    for lines in [0u64, 1080, 5000] {
        match b.scroll_lines(lines) {
            ScrollPlan::ClearAll { clear } => assert_eq!((clear.start, clear.len), (0, 1080 * 7680)),
            _ => panic!("expected a clear"),
        }
    }
    let ByteSpan { start, len } = b.clear_rows(10, 2);
    assert_eq!((start, len), (76800, 15360));
}
