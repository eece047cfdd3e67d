//! Physical frames from the firmware's memory map, and the page mapping of a
//! device window.
use vstd::arithmetic::div_mod::{lemma_fundamental_div_mod, lemma_fundamental_div_mod_converse};
use vstd::prelude::*;
use x86_64::structures::paging::{Page, PageTableFlags, PhysFrame, Size4KiB};
use x86_64::{PhysAddr, VirtAddr};

verus! {

/// Size of a physical frame and of a page, in bytes.
pub const FRAME_SIZE: u64 = 4096;

/// Physical addresses stay below this bound (52 address bits).
pub const PHYS_ADDR_LIMIT: u64 = 0x10_0000_0000_0000;

/// Virtual addresses of the lower canonical half stay below this bound.
pub const LOWER_HALF_LIMIT: u64 = 0x8000_0000_0000;

/// What the firmware says a stretch of physical memory is.
#[derive(PartialEq, Eq, Structural, Debug, Clone, Copy)]
pub enum RegionKind {
    Usable,
    Reserved,
    AcpiReclaimable,
    AcpiNvs,
    BadMemory,
    BootloaderReclaimable,
    ExecutableAndModules,
    Framebuffer,
    Other,
}

/// One entry of the firmware's memory map.
#[derive(PartialEq, Eq, Structural, Debug, Clone, Copy)]
pub struct MemoryRegion {
    pub base: u64,
    pub length: u64,
    pub kind: RegionKind,
}

/// `addr` rounded down to the start of its frame.
pub open spec fn frame_start(addr: int) -> int {
    addr - addr % (FRAME_SIZE as int)
}

/// Relies on x86_64's `PhysFrame::containing_address` (after `PhysAddr::new`,
/// which panics from bit 52 up): the start of the 4 KiB frame holding `addr`.
#[verifier::external_body]
fn frame_containing(addr: u64) -> (r: u64)
    requires
        addr < PHYS_ADDR_LIMIT,
    ensures
        r == frame_start(addr as int),
{
    PhysFrame::<Size4KiB>::containing_address(PhysAddr::new(addr)).start_address().as_u64()
}

/// Relies on x86_64's `Page::containing_address` (after `VirtAddr::new`, which
/// panics on a non-canonical address): the start of the 4 KiB page holding `addr`.
#[verifier::external_body]
fn page_containing(addr: u64) -> (r: u64)
    requires
        addr < LOWER_HALF_LIMIT,
    ensures
        r == frame_start(addr as int),
{
    Page::<Size4KiB>::containing_address(VirtAddr::new(addr)).start_address().as_u64()
}

/// Number of 4 KiB steps that start within `length` bytes: one per started 4 KiB.
pub open spec fn frame_count(length: int) -> int {
    length / (FRAME_SIZE as int) + if length % (FRAME_SIZE as int) != 0 {
        1int
    } else {
        0int
    }
}

/// First frame boundary at or above the base of `r`.
pub open spec fn first_frame(r: MemoryRegion) -> int {
    frame_start(r.base + FRAME_SIZE - 1)
}

/// Number of frame boundaries inside `r`, that is of 4096-aligned addresses
/// `a` with `base <= a < base + length`.
pub open spec fn region_frame_count(r: MemoryRegion) -> int {
    if first_frame(r) < r.base + r.length {
        frame_count(r.base + r.length - first_frame(r))
    } else {
        0
    }
}

/// Frames of one region: each 4096-aligned address inside it, in increasing
/// order, for a usable region; none for any other.
pub open spec fn region_frames(r: MemoryRegion) -> Seq<u64> {
    if r.kind == RegionKind::Usable {
        Seq::new(
            region_frame_count(r) as nat,
            |k: int| (first_frame(r) + FRAME_SIZE * k) as u64,
        )
    } else {
        Seq::empty()
    }
}

/// Frames of a memory map, region after region, in the order they are handed out.
pub open spec fn usable_frames(map: Seq<MemoryRegion>) -> Seq<u64>
    decreases map.len(),
{
    if map.len() == 0 {
        Seq::empty()
    } else {
        usable_frames(map.drop_last()) + region_frames(map.last())
    }
}

/// Every usable region lies below the physical address bound.
pub open spec fn map_fits(map: Seq<MemoryRegion>) -> bool {
    forall|i: int|
        0 <= i < map.len() && (#[trigger] map[i]).kind == RegionKind::Usable ==> map[i].base
            + map[i].length <= PHYS_ADDR_LIMIT
}

/// A memory map as the firmware promises it: usable regions fit and do not
/// overlap one another.
pub open spec fn map_wf(map: Seq<MemoryRegion>) -> bool {
    &&& map_fits(map)
    &&& forall|i: int, j: int|
        0 <= i < map.len() && 0 <= j < map.len() && i != j && (#[trigger] map[i]).kind
            == RegionKind::Usable && (#[trigger] map[j]).kind == RegionKind::Usable ==> map[i].base
            + map[i].length <= map[j].base || map[j].base + map[j].length <= map[i].base
}

/// `addr` lies inside a usable region of `map`.
pub open spec fn in_usable_region(map: Seq<MemoryRegion>, addr: int) -> bool {
    exists|i: int|
        0 <= i < map.len() && (#[trigger] map[i]).kind == RegionKind::Usable && map[i].base <= addr
            < map[i].base + map[i].length
}

proof fn lemma_frame_count(length: int, k: int)
    requires
        0 <= length,
        0 <= k < frame_count(length),
    ensures
        FRAME_SIZE * k < length,
{
    lemma_fundamental_div_mod(length, FRAME_SIZE as int);
    let q = length / (FRAME_SIZE as int);
    assert(FRAME_SIZE * k < length) by (nonlinear_arith)
        requires
            length == 4096 * q + length % 4096,
            0 <= length % 4096 < 4096,
            k < q || (k == q && length % 4096 != 0),
            0 <= k,
    ;
}

proof fn lemma_frames_of_take(map: Seq<MemoryRegion>, i: int)
    requires
        0 <= i < map.len(),
    ensures
        usable_frames(map.take(i + 1)) == usable_frames(map.take(i)) + region_frames(map[i]),
{
    assert(map.take(i + 1).drop_last() =~= map.take(i));
}

/// The frames of the first `j` regions come first among the frames of the map.
proof fn lemma_frames_prefix(map: Seq<MemoryRegion>, j: int)
    requires
        0 <= j <= map.len(),
    ensures
        usable_frames(map.take(j)).len() <= usable_frames(map).len(),
        forall|n: int|
            0 <= n < usable_frames(map.take(j)).len() ==> usable_frames(map)[n]
                == #[trigger] usable_frames(map.take(j))[n],
    decreases map.len() - j,
{
    if j == map.len() {
        assert(map.take(j) =~= map);
    } else {
        lemma_frames_prefix(map, j + 1);
        lemma_frames_of_take(map, j);
        assert forall|n: int| 0 <= n < usable_frames(map.take(j)).len() implies usable_frames(map)[n]
            == #[trigger] usable_frames(map.take(j))[n] by {
            assert(usable_frames(map.take(j + 1))[n] == usable_frames(map.take(j))[n]);
        }
    }
}

proof fn lemma_first_frame(r: MemoryRegion)
    ensures
        first_frame(r) % 4096 == 0,
        r.base <= first_frame(r) < r.base + FRAME_SIZE,
{
    let x = r.base + FRAME_SIZE - 1;
    lemma_fundamental_div_mod(x, 4096);
    lemma_fundamental_div_mod_converse(x - x % 4096, 4096, x / 4096, 0);
}

proof fn lemma_no_frame_above_limit(x: int)
    requires
        x >= PHYS_ADDR_LIMIT,
    ensures
        frame_start(x) >= PHYS_ADDR_LIMIT,
{
    lemma_fundamental_div_mod(x, 4096);
    let q = x / 4096;
    assert(4096 * q >= PHYS_ADDR_LIMIT) by (nonlinear_arith)
        requires
            x == 4096 * q + x % 4096,
            0 <= x % 4096 < 4096,
            x >= 0x10_0000_0000_0000,
    ;
}

/// Frame number `n` of the map (counted from zero); none past the last.
pub fn nth_usable_frame(map: &Vec<MemoryRegion>, n: usize) -> (r: Option<u64>)
    requires
        map_fits(map@),
    ensures
        n < usable_frames(map@).len() ==> r == Some(usable_frames(map@)[n as int]),
        n >= usable_frames(map@).len() ==> r is None,
{
    let mut skipped: usize = 0;
    let mut i: usize = 0;
    proof {
        assert(map@.take(0) =~= Seq::<MemoryRegion>::empty());
    }
    while i < map.len()
        invariant
            map_fits(map@),
            i <= map@.len(),
            skipped as int == usable_frames(map@.take(i as int)).len(),
            skipped <= n,
        decreases map@.len() - i,
    {
        let region = map[i];
        proof {
            lemma_frames_of_take(map@, i as int);
            lemma_frames_prefix(map@, (i + 1) as int);
        }
        if region.kind == RegionKind::Usable && region.base <= PHYS_ADDR_LIMIT - FRAME_SIZE {
            let first = frame_containing(region.base + (FRAME_SIZE - 1));
            let end = region.base + region.length;
            proof {
                lemma_first_frame(region);
            }
            if first < end {
                let span = end - first;
                let count: u64 = span / FRAME_SIZE + if span % FRAME_SIZE != 0 {
                    1u64
                } else {
                    0u64
                };
                let offset: usize = n - skipped;
                if (offset as u64) < count {
                    proof {
                        lemma_frame_count(span as int, offset as int);
                        assert(region_frames(region)[offset as int] == usable_frames(map@.take(
                            (i + 1) as int,
                        ))[n as int]);
                    }
                    return Some(first + FRAME_SIZE * (offset as u64));
                }
                skipped = skipped + count as usize;
            }
        } else if region.kind == RegionKind::Usable {
            proof {
                lemma_first_frame(region);
                lemma_no_frame_above_limit(region.base + FRAME_SIZE - 1);
            }
        }
        i = i + 1;
    }
    proof {
        assert(map@.take(map@.len() as int) =~= map@);
    }
    None
}

/// Hands out the frames of a memory map one by one, each at most once.
pub struct BootInfoFrameAllocator {
    memory_map: Vec<MemoryRegion>,
    next: usize,
}

impl BootInfoFrameAllocator {
    /// The memory map the frames come from.
    pub closed spec fn map(&self) -> Seq<MemoryRegion> {
        self.memory_map@
    }

    /// How many frames have been handed out.
    pub closed spec fn next_index(&self) -> nat {
        self.next as nat
    }

    /// Frames handed out so far, oldest first.
    pub open spec fn issued(&self) -> Seq<u64> {
        usable_frames(self.map()).take(self.next_index() as int)
    }

    pub open spec fn wf(&self) -> bool {
        &&& map_fits(self.map())
        &&& usable_frames(self.map()).len() <= usize::MAX
        &&& self.next_index() <= usable_frames(self.map()).len()
    }

    /// An allocator that has handed out nothing yet.
    pub fn init(memory_map: Vec<MemoryRegion>) -> (r: Self)
        requires
            map_fits(memory_map@),
            usable_frames(memory_map@).len() <= usize::MAX,
        ensures
            r.wf(),
            r.map() == memory_map@,
            r.next_index() == 0,
            r.issued() == Seq::<u64>::empty(),
    {
        let r = BootInfoFrameAllocator { memory_map, next: 0 };
        assert(r.issued() =~= Seq::<u64>::empty());
        r
    }

    /// The next frame never handed out before, if the map has one left.
    pub fn allocate_frame(&mut self) -> (r: Option<u64>)
        requires
            old(self).wf(),
        ensures
            final(self).wf(),
            final(self).map() == old(self).map(),
            old(self).next_index() < usable_frames(old(self).map()).len() ==> {
                &&& r == Some(usable_frames(old(self).map())[old(self).next_index() as int])
                &&& final(self).next_index() == old(self).next_index() + 1
                &&& final(self).issued() == old(self).issued().push(r.unwrap())
            },
            old(self).next_index() == usable_frames(old(self).map()).len() ==> {
                &&& r is None
                &&& final(self).next_index() == old(self).next_index()
            },
    {
        let frame = nth_usable_frame(&self.memory_map, self.next);
        if frame.is_some() {
            self.next = self.next + 1;
            assert(self.issued() =~= old(self).issued().push(frame.unwrap()));
        }
        frame
    }
}

proof fn lemma_aligned_step(base: int, k: int)
    requires
        base % 4096 == 0,
        0 <= k,
        0 <= base,
    ensures
        frame_start(base + FRAME_SIZE * k) == base + FRAME_SIZE * k,
        (base + FRAME_SIZE * k) % 4096 == 0,
{
    lemma_fundamental_div_mod(base, 4096);
    lemma_fundamental_div_mod_converse(base + 4096 * k, 4096, base / 4096 + k, 0);
}

/// The frames of a well-formed memory map start on a frame boundary, lie
/// inside a usable region, and are pairwise distinct.
pub proof fn lemma_usable_frames_sound(map: Seq<MemoryRegion>)
    requires
        map_wf(map),
    ensures
        forall|n: int|
            0 <= n < usable_frames(map).len() ==> #[trigger] usable_frames(map)[n] % 4096 == 0
                && in_usable_region(map, usable_frames(map)[n] as int),
        forall|a: int, b: int|
            0 <= a < b < usable_frames(map).len() ==> #[trigger] usable_frames(map)[a]
                != #[trigger] usable_frames(map)[b],
    decreases map.len(),
{
    if map.len() > 0 {
        let rest = map.drop_last();
        let last = map.last();
        let li = map.len() - 1;
        assert forall|i: int| 0 <= i < rest.len() implies #[trigger] rest[i] == map[i] by {}
        assert(map_wf(rest)) by {
            assert forall|i: int, j: int|
                0 <= i < rest.len() && 0 <= j < rest.len() && i != j && (#[trigger] rest[i]).kind
                    == RegionKind::Usable && (#[trigger] rest[j]).kind
                    == RegionKind::Usable implies rest[i].base + rest[i].length <= rest[j].base
                || rest[j].base + rest[j].length <= rest[i].base by {
                assert(map[i] == rest[i] && map[j] == rest[j]);
            }
        }
        lemma_usable_frames_sound(rest);
        let head = usable_frames(rest);
        let tail = region_frames(last);
        let all = usable_frames(map);
        assert(all == head + tail);
        // Each frame of the last region is its first frame boundary plus a
        // whole number of frames, and lies inside the region.
        let first = first_frame(last);
        lemma_first_frame(last);
        assert forall|k: int| 0 <= k < tail.len() implies #[trigger] tail[k] == first
            + FRAME_SIZE * k && last.base <= first + FRAME_SIZE * k < last.base + last.length
            && last.kind == RegionKind::Usable by {
            assert(map[li] == last);
            lemma_frame_count(last.base + last.length - first, k);
        }
        assert forall|n: int| 0 <= n < all.len() implies #[trigger] all[n] % 4096 == 0
            && in_usable_region(map, all[n] as int) by {
            if n < head.len() {
                assert(all[n] == head[n]);
                let j = choose|j: int|
                    0 <= j < rest.len() && (#[trigger] rest[j]).kind == RegionKind::Usable
                        && rest[j].base <= head[n] < rest[j].base + rest[j].length;
                assert(map[j] == rest[j]);
            } else {
                let k = n - head.len();
                assert(all[n] == tail[k]);
                assert(map[li] == last);
                lemma_aligned_step(first, k);
            }
        }
        assert forall|a: int, b: int| 0 <= a < b < all.len() implies #[trigger] all[a]
            != #[trigger] all[b] by {
            if b < head.len() {
                assert(all[a] == head[a] && all[b] == head[b]);
            } else if a >= head.len() {
                assert(all[a] == tail[a - head.len()] && all[b] == tail[b - head.len()]);
            } else {
                assert(all[a] == head[a] && all[b] == tail[b - head.len()]);
                let j = choose|j: int|
                    0 <= j < rest.len() && (#[trigger] rest[j]).kind == RegionKind::Usable
                        && rest[j].base <= head[a] < rest[j].base + rest[j].length;
                assert(map[j] == rest[j]);
                assert(map[li] == last);
            }
        }
    }
}

/// However many frames an allocator over a well-formed memory map has handed
/// out, no frame was handed out twice, and each starts on a frame boundary
/// inside a usable region of the map.
pub proof fn lemma_issued_frames_sound(alloc: BootInfoFrameAllocator)
    requires
        alloc.wf(),
        map_wf(alloc.map()),
    ensures
        forall|n: int|
            0 <= n < alloc.issued().len() ==> #[trigger] alloc.issued()[n] % 4096 == 0
                && in_usable_region(alloc.map(), alloc.issued()[n] as int),
        forall|a: int, b: int|
            0 <= a < b < alloc.issued().len() ==> #[trigger] alloc.issued()[a]
                != #[trigger] alloc.issued()[b],
{
    lemma_usable_frames_sound(alloc.map());
    let all = usable_frames(alloc.map());
    assert forall|n: int| 0 <= n < alloc.issued().len() implies #[trigger] alloc.issued()[n]
        % 4096 == 0 && in_usable_region(alloc.map(), alloc.issued()[n] as int) by {
        assert(alloc.issued()[n] == all[n]);
    }
    assert forall|a: int, b: int| 0 <= a < b < alloc.issued().len() implies #[trigger] alloc.issued()[a]
        != #[trigger] alloc.issued()[b] by {
        assert(alloc.issued()[a] == all[a] && alloc.issued()[b] == all[b]);
    }
}

/// Physical address of the local interrupt controller's register window,
/// mapped at the same virtual address.
pub const APIC_BASE_ADDRESS: u64 = 0xFEE0_0000;

/// Page-table flags of a device mapping: present, writable, not executable.
pub const DEVICE_PAGE_FLAGS: u64 = 0x8000_0000_0000_0003;

/// Relies on x86_64's `PageTableFlags`: the bits of `PRESENT | WRITABLE |
/// NO_EXECUTE` (bits 0, 1 and 63).
#[verifier::external_body]
fn device_page_flags() -> (r: u64)
    ensures
        r == DEVICE_PAGE_FLAGS,
{
    (PageTableFlags::PRESENT | PageTableFlags::WRITABLE | PageTableFlags::NO_EXECUTE).bits()
}

/// One page mapping to install: virtual page start, physical frame start, flags.
#[derive(PartialEq, Eq, Structural, Debug, Clone, Copy)]
pub struct DeviceMapping {
    pub page: u64,
    pub frame: u64,
    pub flags: u64,
}

/// The identity mapping of the 4 KiB device window holding `physical_base`:
/// present, writable and not executable.
pub fn map_device(physical_base: u64) -> (r: DeviceMapping)
    requires
        physical_base < LOWER_HALF_LIMIT,
    ensures
        r.page == frame_start(physical_base as int),
        r.frame == frame_start(physical_base as int),
        r.flags == DEVICE_PAGE_FLAGS,
{
    DeviceMapping {
        page: page_containing(physical_base),
        frame: frame_containing(physical_base),
        flags: device_page_flags(),
    }
}

/// The mapping of the local interrupt controller's register window.
pub fn map_apic() -> (r: DeviceMapping)
    ensures
        r == (DeviceMapping { page: APIC_BASE_ADDRESS, frame: APIC_BASE_ADDRESS, flags: DEVICE_PAGE_FLAGS }),
{
    map_device(APIC_BASE_ADDRESS)
}

/// Virtual address of the active top-level page table, whose frame starts at
/// `table_frame`, when all physical memory is mapped from
/// `physical_memory_offset` on; none when the sum does not fit in 64 bits.
pub fn active_level_4_table(physical_memory_offset: u64, table_frame: u64) -> (r: Option<u64>)
    ensures
        physical_memory_offset + table_frame <= u64::MAX ==> r == Some(
            (physical_memory_offset + table_frame) as u64,
        ),
        physical_memory_offset + table_frame > u64::MAX ==> r is None,
{
    physical_memory_offset.checked_add(table_frame)
}

} // verus!
