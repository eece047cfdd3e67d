//! Multicore bring-up and parallel frame distribution for a small x86_64 kernel.
//!
//! Everything here is plain data and decisions: the hardware side (port and
//! MMIO access, descriptor-table loads, atomics shared between cores) is done by
//! the caller with the values these functions compute.

pub mod distributor;
pub mod framebuffer;
pub mod memory;
pub mod descriptors;
pub mod bootstrap;
pub mod apic;
pub mod writer;
pub mod fps;
pub mod screen;

use vstd::prelude::*;

verus! {

/// Status reported to the emulator's exit device when the kernel stops.
#[derive(PartialEq, Eq, Structural, Debug, Clone, Copy)]
pub enum QemuExitCode {
    Success,
    Failed,
}

impl QemuExitCode {
    /// The value written to the exit device.
    pub fn code(self) -> (r: u32)
        ensures
            self == QemuExitCode::Success ==> r == 0x10,
            self == QemuExitCode::Failed ==> r == 0x11,
    {
        match self {
            QemuExitCode::Success => 0x10,
            QemuExitCode::Failed => 0x11,
        }
    }
}

/// Port of the emulator's exit device.
pub const QEMU_EXIT_PORT: u16 = 0xF4;

} // verus!
