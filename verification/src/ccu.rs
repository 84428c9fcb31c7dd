//! The clock control unit: bus clock gating and reset of a peripheral, and
//! the busy-wait deadline of its short delays.
use vstd::prelude::*;

verus! {

/// A peripheral's bus clock gate.
#[derive(Clone, Copy, Debug, PartialEq, Eq, Structural)]
pub enum BusGating {
    Mask,
    Pass,
}

/// A peripheral's bus reset.
#[derive(Clone, Copy, Debug, PartialEq, Eq, Structural)]
pub enum BusReset {
    Assert,
    Deassert,
}

/// One step of enabling or disabling a peripheral's bus clock.
#[derive(Clone, Copy, Debug, PartialEq, Eq, Structural)]
pub enum ModuleStep {
    Reset(BusReset),
    Gating(BusGating),
    /// Busy-wait this many microseconds.
    Delay(usize),
}

/// Enabling a peripheral: de-assert its reset, wait 20 µs, pass its clock.
pub fn enable_module_steps() -> (r: Vec<ModuleStep>)
    ensures
        r@ == seq![
            ModuleStep::Reset(BusReset::Deassert),
            ModuleStep::Delay(20),
            ModuleStep::Gating(BusGating::Pass),
        ],
{
    let mut v: Vec<ModuleStep> = Vec::new();
    v.push(ModuleStep::Reset(BusReset::Deassert));
    v.push(ModuleStep::Delay(20));
    v.push(ModuleStep::Gating(BusGating::Pass));
    v
}

/// Disabling a peripheral: mask its clock, then assert its reset.
pub fn disable_module_steps() -> (r: Vec<ModuleStep>)
    ensures
        r@ == seq![ModuleStep::Gating(BusGating::Mask), ModuleStep::Reset(BusReset::Assert)],
{
    let mut v: Vec<ModuleStep> = Vec::new();
    v.push(ModuleStep::Gating(BusGating::Mask));
    v.push(ModuleStep::Reset(BusReset::Assert));
    v
}

/// Ticks of the 24 MHz machine timer per microsecond.
pub const MTIME_TICKS_PER_US: u64 = 24;

/// The machine-timer reading at which a delay of `delay_us` microseconds
/// begun at reading `start` ends.
pub fn delay_deadline(start: u64, delay_us: u64) -> (r: u64)
    requires
        start + 24 * delay_us <= u64::MAX,
    ensures
        r == start + 24 * delay_us,
{
    start + MTIME_TICKS_PER_US * delay_us
}

} // verus!
