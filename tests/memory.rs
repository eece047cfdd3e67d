use kernel_core::memory::{
    active_level_4_table, map_apic, map_device, nth_usable_frame, BootInfoFrameAllocator,
    DeviceMapping, MemoryRegion, RegionKind, DEVICE_PAGE_FLAGS,
};

fn region(base: u64, length: u64, kind: RegionKind) -> MemoryRegion {
    MemoryRegion { base, length, kind }
}

#[test]
fn one_mebibyte_map_yields_256_frames() {
    let mut alloc = BootInfoFrameAllocator::init(vec![region(0, 0x100000, RegionKind::Usable)]);
    let mut frames = Vec::new();
    while let Some(f) = alloc.allocate_frame() {
        frames.push(f);
    }
    assert_eq!(frames.len(), 256);
    for (i, f) in frames.iter().enumerate() {
        assert_eq!(*f, (i as u64) * 0x1000);
    }
    assert_eq!(frames[255], 0xFF000);
    assert_eq!(alloc.allocate_frame(), None);
}

#[test]
fn frames_skip_unusable_regions_and_never_repeat() {
    let map = vec![
        region(0x0, 0x3000, RegionKind::Reserved),
        region(0x3000, 0x2000, RegionKind::Usable),
        region(0x5000, 0x1000, RegionKind::AcpiNvs),
        region(0x10000, 0x3000, RegionKind::Usable),
        region(0x20000, 0x1000, RegionKind::BadMemory),
    ];
    let mut alloc = BootInfoFrameAllocator::init(map.clone());
    let mut frames = Vec::new();
    while let Some(f) = alloc.allocate_frame() {
        frames.push(f);
    }
    assert_eq!(frames, vec![0x3000, 0x4000, 0x10000, 0x11000, 0x12000]);
    for (i, f) in frames.iter().enumerate() {
        assert_eq!(f % 4096, 0);
        assert!(map
            .iter()
            .any(|r| r.kind == RegionKind::Usable && r.base <= *f && *f < r.base + r.length));
        for g in &frames[i + 1..] {
            assert_ne!(f, g);
        }
    }
}

#[test]
fn empty_map_has_no_frame() {
    let mut alloc = BootInfoFrameAllocator::init(Vec::new());
    assert_eq!(alloc.allocate_frame(), None);
    assert_eq!(alloc.allocate_frame(), None);
}

#[test]
fn unaligned_region_yields_only_boundaries_inside_it() {
    // 0x1234..0x3235 holds the frame boundaries 0x2000 and 0x3000 only.
    let map = vec![region(0x1234, 0x2001, RegionKind::Usable)];
    assert_eq!(nth_usable_frame(&map, 0), Some(0x2000));
    assert_eq!(nth_usable_frame(&map, 1), Some(0x3000));
    assert_eq!(nth_usable_frame(&map, 2), None);
}

#[test]
fn small_unaligned_regions_yield_no_frame() {
    let mut alloc = BootInfoFrameAllocator::init(vec![
        region(0x100, 0x100, RegionKind::Usable),
        region(0x300, 0x100, RegionKind::Usable),
    ]);
    assert_eq!(alloc.allocate_frame(), None);
    let mut alloc = BootInfoFrameAllocator::init(vec![region(0x100, 0x100, RegionKind::Usable)]);
    assert_eq!(alloc.allocate_frame(), None);
}

#[test]
fn frames_of_unaligned_neighbours_stay_distinct_and_inside() {
    let map = vec![
        region(0x0800, 0x1900, RegionKind::Usable),
        region(0x2100, 0x2000, RegionKind::Usable),
    ];
    let mut alloc = BootInfoFrameAllocator::init(map);
    let mut frames = Vec::new();
    while let Some(f) = alloc.allocate_frame() {
        frames.push(f);
    }
    assert_eq!(frames, vec![0x1000, 0x2000, 0x3000, 0x4000]);
}

#[test]
fn apic_window_mapping() {
    assert_eq!(
        map_apic(),
        DeviceMapping { page: 0xFEE0_0000, frame: 0xFEE0_0000, flags: DEVICE_PAGE_FLAGS }
    );
    assert_eq!(DEVICE_PAGE_FLAGS, (1u64 << 63) | 0b11);
}

#[test]
fn device_mapping_rounds_to_page() {
    let m = map_device(0x1234_5678);
    assert_eq!(m.page, 0x1234_5000);
    assert_eq!(m.frame, 0x1234_5000);
    assert_eq!(m.flags, 0x8000_0000_0000_0003);
}

#[test]
fn level_4_table_address() {
    assert_eq!(active_level_4_table(0xFFFF_8000_0000_0000, 0x1000), Some(0xFFFF_8000_0000_1000));
    assert_eq!(active_level_4_table(u64::MAX, 1), None);
}
