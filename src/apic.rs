//! The local interrupt controller: whether it can be enabled, the calibration
//! of its timer against the legacy oscillator, and the register values that
//! program it.
use vstd::prelude::*;

verus! {

/// Interrupt vector of the controller's timer.
pub const APIC_TIMER_VECTOR: u8 = 32;

/// Bit of the controller's base register that says it is present and enabled.
pub const APIC_BASE_ENABLE: u64 = 0x800;

/// Offset of the identification register in the controller's window.
pub const XAPIC_ID: usize = 0x020;

/// Offset of the end-of-interrupt register.
pub const XAPIC_EOI: usize = 0x0B0;

/// Offset of the spurious-interrupt register.
pub const XAPIC_SVR: usize = 0x0F0;

/// Offset of the timer's local vector register.
pub const XAPIC_LVT_TIMER: usize = 0x320;

/// Offset of the timer's initial-count register.
pub const XAPIC_TIMER_INIT: usize = 0x380;

/// Offset of the timer's current-count register.
pub const XAPIC_TIMER_CURRENT: usize = 0x390;

/// Offset of the timer's divide register.
pub const XAPIC_TIMER_DIV: usize = 0x3E0;

/// Timer mode bit: periodic.
pub const TIMER_PERIODIC: u32 = 0x2_0000;

/// Timer mode bit: delivery masked.
pub const TIMER_MASKED: u32 = 0x1_0000;

/// Divide-register value that divides the timer clock by 16.
pub const TIMER_DIVIDE_BY_16: u32 = 0x3;

/// Spurious-interrupt register value: vector 0xFF with the software-enable bit.
pub const SVR_ENABLE: u32 = 0x1FF;

/// Count the timer starts from during calibration.
pub const CALIBRATION_START_COUNT: u32 = 0xFFFF_FFFF;

/// Most reads of the current-count register during calibration.
pub const CALIBRATION_POLLS: u32 = 10000;

/// Calibration windows per second (the window is about 10 ms).
pub const WINDOWS_PER_SECOND: u32 = 100;

/// Command port of the legacy interval timer.
pub const PIT_COMMAND_PORT: u16 = 0x43;

/// Channel-0 data port of the legacy interval timer.
pub const PIT_CHANNEL0_PORT: u16 = 0x40;

/// Command: channel 0, low then high byte, rate generator.
pub const PIT_RATE_GENERATOR: u8 = 0x34;

/// Low byte of the channel-0 reload value for the calibration window.
pub const PIT_WINDOW_LOW: u8 = 0x9B;

/// High byte of the channel-0 reload value for the calibration window.
pub const PIT_WINDOW_HIGH: u8 = 0x2E;

/// Data port of the legacy interrupt controller's primary chip.
pub const PIC1_DATA_PORT: u16 = 0x21;

/// A store of `value` into the controller register at `offset`.
#[derive(PartialEq, Eq, Structural, Debug, Clone, Copy)]
pub struct RegisterWrite {
    pub offset: usize,
    pub value: u32,
}

/// Why the controller cannot be used.
#[derive(PartialEq, Eq, Structural, Debug, Clone, Copy)]
pub enum ApicError {
    /// The base register says the controller is absent or disabled.
    Unavailable,
}

/// The base register value `apic_base` has the enable bit set.
pub open spec fn apic_enabled(apic_base: u64) -> bool {
    apic_base & APIC_BASE_ENABLE != 0
}

/// Whether the controller is enabled, from its base register value.
pub fn is_apic_initialized(apic_base: u64) -> (r: bool)
    ensures
        r == apic_enabled(apic_base),
{
    apic_base & APIC_BASE_ENABLE != 0
}

/// Enabling the controller whose base register reads `apic_base`: the one
/// register store that arms it, or `Unavailable` when the enable bit is clear.
pub fn init_apic(apic_base: u64) -> (r: Result<RegisterWrite, ApicError>)
    ensures
        !apic_enabled(apic_base) <==> r == Err::<RegisterWrite, ApicError>(ApicError::Unavailable),
        apic_enabled(apic_base) <==> r == Ok::<RegisterWrite, ApicError>(
            RegisterWrite { offset: XAPIC_SVR, value: SVR_ENABLE },
        ),
{
    if !is_apic_initialized(apic_base) {
        return Err(ApicError::Unavailable);
    }
    Ok(RegisterWrite { offset: XAPIC_SVR, value: SVR_ENABLE })
}

/// The legacy interrupt controller's mask with the timer line (bit 0) masked
/// and every other line as it was.
pub fn disable_pic_timer(current_mask: u8) -> (r: u8)
    ensures
        r == current_mask | 1,
{
    current_mask | 1
}

/// The store that acknowledges the interrupt being handled.
pub fn end_of_interrupt() -> (r: RegisterWrite)
    ensures
        r == (RegisterWrite { offset: XAPIC_EOI, value: 0 }),
{
    RegisterWrite { offset: XAPIC_EOI, value: 0 }
}

/// Timer rate per second extrapolated from the count `current` left after one
/// calibration window: the ticks elapsed, times `WINDOWS_PER_SECOND`, modulo 2^32.
pub open spec fn ticks_per_second(current: u32) -> u32 {
    (((CALIBRATION_START_COUNT - current) * WINDOWS_PER_SECOND) % 0x1_0000_0000) as u32
}

/// Controller stores that start calibration: divide by 16, timer masked on its
/// vector, counting down from the largest count.
pub fn calibration_writes() -> (r: Vec<RegisterWrite>)
    ensures
        r@ == seq![
            RegisterWrite { offset: XAPIC_TIMER_DIV, value: TIMER_DIVIDE_BY_16 },
            RegisterWrite { offset: XAPIC_LVT_TIMER, value: TIMER_MASKED | APIC_TIMER_VECTOR as u32 },
            RegisterWrite { offset: XAPIC_TIMER_INIT, value: CALIBRATION_START_COUNT },
        ],
{
    let mut r: Vec<RegisterWrite> = Vec::new();
    r.push(RegisterWrite { offset: XAPIC_TIMER_DIV, value: TIMER_DIVIDE_BY_16 });
    r.push(RegisterWrite { offset: XAPIC_LVT_TIMER, value: TIMER_MASKED | APIC_TIMER_VECTOR as u32 });
    r.push(RegisterWrite { offset: XAPIC_TIMER_INIT, value: CALIBRATION_START_COUNT });
    assert(r@ =~= seq![
        RegisterWrite { offset: XAPIC_TIMER_DIV, value: TIMER_DIVIDE_BY_16 },
        RegisterWrite { offset: XAPIC_LVT_TIMER, value: TIMER_MASKED | APIC_TIMER_VECTOR as u32 },
        RegisterWrite { offset: XAPIC_TIMER_INIT, value: CALIBRATION_START_COUNT },
    ]);
    r
}

/// What to do after one read of the current-count register.
#[derive(PartialEq, Eq, Structural, Debug, Clone, Copy)]
pub enum CalibrationStep {
    /// Read the register again.
    Poll,
    /// Stop the timer (store 0 into its initial count); the rate is `ticks_per_second`.
    Done { ticks_per_second: u32 },
}

/// Progress of one calibration: how many reads were made and the last count read.
pub struct Calibration {
    polls: u32,
    current: u32,
}

impl Calibration {
    /// Reads made so far.
    pub closed spec fn polls(&self) -> nat {
        self.polls as nat
    }

    /// Last count read, or the start count before the first read.
    pub closed spec fn current(&self) -> u32 {
        self.current
    }

    /// A calibration with no read made yet.
    pub fn start() -> (r: Self)
        ensures
            r.polls() == 0,
            r.current() == CALIBRATION_START_COUNT,
    {
        Calibration { polls: 0, current: CALIBRATION_START_COUNT }
    }

    /// Takes one read `count` of the current-count register. Calibration ends
    /// at the first count below the start count, or at the last permitted read;
    /// the rate comes from the count read last.
    pub fn observe(&mut self, count: u32) -> (r: CalibrationStep)
        requires
            old(self).polls() < CALIBRATION_POLLS,
        ensures
            final(self).polls() == old(self).polls() + 1,
            final(self).current() == count,
            count < CALIBRATION_START_COUNT || final(self).polls() == CALIBRATION_POLLS ==> r == (
            CalibrationStep::Done { ticks_per_second: ticks_per_second(count) }),
            !(count < CALIBRATION_START_COUNT || final(self).polls() == CALIBRATION_POLLS) ==> r
                == CalibrationStep::Poll,
    {
        self.polls = self.polls + 1;
        self.current = count;
        if count < CALIBRATION_START_COUNT || self.polls == CALIBRATION_POLLS {
            let elapsed = CALIBRATION_START_COUNT - count;
            let rate = elapsed.wrapping_mul(WINDOWS_PER_SECOND);
            assert(rate == ticks_per_second(count));
            CalibrationStep::Done { ticks_per_second: rate }
        } else {
            CalibrationStep::Poll
        }
    }
}

/// Controller stores that start the timer in periodic mode on `vector`, firing
/// every `initial_count` ticks of the divided clock.
pub fn start_periodic(initial_count: u32, vector: u8) -> (r: Vec<RegisterWrite>)
    ensures
        r@ == seq![
            RegisterWrite { offset: XAPIC_TIMER_DIV, value: TIMER_DIVIDE_BY_16 },
            RegisterWrite { offset: XAPIC_TIMER_INIT, value: initial_count },
            RegisterWrite { offset: XAPIC_LVT_TIMER, value: TIMER_PERIODIC | vector as u32 },
        ],
{
    let mut r: Vec<RegisterWrite> = Vec::new();
    r.push(RegisterWrite { offset: XAPIC_TIMER_DIV, value: TIMER_DIVIDE_BY_16 });
    r.push(RegisterWrite { offset: XAPIC_TIMER_INIT, value: initial_count });
    r.push(RegisterWrite { offset: XAPIC_LVT_TIMER, value: TIMER_PERIODIC | vector as u32 });
    assert(r@ =~= seq![
        RegisterWrite { offset: XAPIC_TIMER_DIV, value: TIMER_DIVIDE_BY_16 },
        RegisterWrite { offset: XAPIC_TIMER_INIT, value: initial_count },
        RegisterWrite { offset: XAPIC_LVT_TIMER, value: TIMER_PERIODIC | vector as u32 },
    ]);
    r
}

/// The timer program after calibration: periodic on `APIC_TIMER_VECTOR`,
/// reloading from the calibrated rate.
pub fn init_apic_timer(ticks_per_second: u32) -> (r: Vec<RegisterWrite>)
    ensures
        r@ == seq![
            RegisterWrite { offset: XAPIC_TIMER_DIV, value: TIMER_DIVIDE_BY_16 },
            RegisterWrite { offset: XAPIC_TIMER_INIT, value: ticks_per_second },
            RegisterWrite { offset: XAPIC_LVT_TIMER, value: TIMER_PERIODIC | APIC_TIMER_VECTOR as u32 },
        ],
{
    start_periodic(ticks_per_second, APIC_TIMER_VECTOR)
}

} // verus!
