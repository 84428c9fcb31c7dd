//! The D1's two hardware timers, which count down at 3 MHz: timer 0 runs
//! freely as the kernel's clock, timer 1 wakes the CPU from sleep.
use vstd::prelude::*;

verus! {

/// Timer 0.
pub struct Timer0 {
    _x: (),
}

/// Timer 1.
pub struct Timer1 {
    _x: (),
}

/// Both timers.
pub struct Timers {
    pub timer0: Timer0,
    pub timer1: Timer1,
}

/// The clock's tick length in nanoseconds: 3 ticks per microsecond, rounded.
pub const CLOCK_TICK_NANOS: u64 = 333;

impl Timer0 {
    /// The kernel clock's reading when timer 0, started at `u32::MAX`,
    /// holds `current`: the ticks it has counted down.
    pub fn clock_ticks(current: u32) -> (r: u64)
        ensures
            r == u32::MAX - current,
    {
        crate::idle::clock_ticks(current)
    }
}

/// The two words of the machine timer comparator for `value`: the high 32
/// bits, then the low 32 bits.
pub fn comparator_words(value: u64) -> (r: (u32, u32))
    ensures
        r.0 == value / 0x1_0000_0000,
        r.1 == value % 0x1_0000_0000,
        r.0 * 0x1_0000_0000 + r.1 == value,
{
    ((value / 0x1_0000_0000) as u32, (value % 0x1_0000_0000) as u32)
}

/// The comparator words that disarm the machine timer interrupt.
pub fn comparator_reset_words() -> (r: (u32, u32))
    ensures
        r == (0xffff_ffffu32, 0xffff_ffffu32),
{
    (0xffff_ffff, 0xffff_ffff)
}

} // verus!
