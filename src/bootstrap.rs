//! Decisions of the boot sequence: which display to drive, and which core a
//! freshly woken processor is.
use vstd::prelude::*;

verus! {

/// Least width of a display the kernel drives, in pixels.
pub const MIN_DISPLAY_WIDTH: u64 = 1920;

/// Least height of a display the kernel drives, in pixels.
pub const MIN_DISPLAY_HEIGHT: u64 = 1080;

/// Size of one display the firmware offers.
#[derive(PartialEq, Eq, Structural, Debug, Clone, Copy)]
pub struct DisplayMode {
    pub width: u64,
    pub height: u64,
}

/// The display is large enough to drive.
pub open spec fn display_fits(m: DisplayMode) -> bool {
    m.width >= MIN_DISPLAY_WIDTH && m.height >= MIN_DISPLAY_HEIGHT
}

/// Position of the first display in `modes` that is large enough; none when no
/// display is.
pub fn choose_framebuffer(modes: &Vec<DisplayMode>) -> (r: Option<usize>)
    ensures
        r is Some ==> r.unwrap() < modes@.len() && display_fits(modes@[r.unwrap() as int])
            && forall|j: int| 0 <= j < r.unwrap() ==> !display_fits(#[trigger] modes@[j]),
        r is None ==> forall|j: int| 0 <= j < modes@.len() ==> !display_fits(#[trigger] modes@[j]),
{
    let mut i: usize = 0;
    while i < modes.len()
        invariant
            i <= modes@.len(),
            forall|j: int| 0 <= j < i ==> !display_fits(#[trigger] modes@[j]),
        decreases modes@.len() - i,
    {
        let m = modes[i];
        if m.height >= MIN_DISPLAY_HEIGHT && m.width >= MIN_DISPLAY_WIDTH {
            return Some(i);
        }
        i = i + 1;
    }
    None
}

/// Self-identification of a woken core: the position in the firmware's CPU
/// list `cpus` (entry addresses) of the entry at address `handle`, the first
/// if several match; none when no entry does, and the core then parks.
pub fn identify_core(cpus: &Vec<usize>, handle: usize) -> (r: Option<usize>)
    ensures
        r is Some ==> r.unwrap() < cpus@.len() && cpus@[r.unwrap() as int] == handle && forall|j: int|
            0 <= j < r.unwrap() ==> #[trigger] cpus@[j] != handle,
        r is None ==> forall|j: int| 0 <= j < cpus@.len() ==> #[trigger] cpus@[j] != handle,
{
    let mut i: usize = 0;
    while i < cpus.len()
        invariant
            i <= cpus@.len(),
            forall|j: int| 0 <= j < i ==> #[trigger] cpus@[j] != handle,
        decreases cpus@.len() - i,
    {
        if cpus[i] == handle {
            return Some(i);
        }
        i = i + 1;
    }
    None
}

} // verus!
