//! The platforms' idle decisions: when the kernel's run loop may wait for
//! an interrupt, how long it sleeps, and how the down-counting hardware
//! timer's readings become elapsed ticks.
use vstd::prelude::*;

verus! {

/// Timer ticks of the default sleep on the D1 when no timer is due:
/// 100 ms at 3 ticks per microsecond.
pub const D1_DEFAULT_SLEEP_TICKS: u64 = 300_000;

/// The longest sleep on the D1, in timer ticks.
pub const D1_MAX_SLEEP_TICKS: u64 = 0x4000_0000;

/// Whether the run loop may wait for an interrupt: no timer expired on this
/// turn and the scheduler has nothing left to run.
pub fn should_idle(expired: usize, has_remaining: bool) -> (r: bool)
    ensures
        r == (expired == 0 && !has_remaining),
{
    expired == 0 && !has_remaining
}

/// How many ticks the D1 sleeps: until the next timer deadline, or 100 ms
/// when there is none, but never more than [`D1_MAX_SLEEP_TICKS`].
pub fn d1_sleep_ticks(ticks_to_next_deadline: Option<u64>) -> (r: u32)
    ensures
        r == (match ticks_to_next_deadline {
            Some(t) => if t < D1_MAX_SLEEP_TICKS { t } else { D1_MAX_SLEEP_TICKS },
            None => D1_DEFAULT_SLEEP_TICKS,
        }),
{
    let amount = match ticks_to_next_deadline {
        Some(t) => t,
        None => D1_DEFAULT_SLEEP_TICKS,
    };
    let amount = if amount < D1_MAX_SLEEP_TICKS { amount } else { D1_MAX_SLEEP_TICKS };
    amount as u32
}

/// Ticks elapsed on the down-counting timer between readings `start` and
/// `now` (wrapping).
pub fn elapsed_ticks(start: u32, now: u32) -> (r: u32)
    ensures
        r == (if start >= now { start - now } else { start + 0x1_0000_0000int - now }),
{
    start.wrapping_sub(now)
}

/// The monotonic clock reading of the timer counting down from `u32::MAX`.
pub fn clock_ticks(current: u32) -> (r: u64)
    ensures
        r == u32::MAX - current,
{
    (u32::MAX - current) as u64
}

/// How many microseconds the simulator sleeps: until the next timer
/// deadline, or the sleep cap when there is none.
pub fn sim_sleep_micros(ticks_to_next_deadline: Option<u64>, sleep_cap_us: u64) -> (r: u64)
    ensures
        r == (match ticks_to_next_deadline {
            Some(t) => t,
            None => sleep_cap_us,
        }),
{
    match ticks_to_next_deadline {
        Some(t) => t,
        None => sleep_cap_us,
    }
}

/// Whether the browser simulator sleeps: when no timer expired, or the
/// scheduler has nothing left to run.
pub fn web_should_sleep(expired: usize, has_remaining: bool) -> (r: bool)
    ensures
        r == (expired == 0 || !has_remaining),
{
    expired == 0 || !has_remaining
}

/// How many milliseconds the browser simulator sleeps: until the next
/// timer deadline, or one second when there is none.
pub fn web_sleep_millis(millis_to_next_deadline: Option<u128>) -> (r: u32)
    requires
        millis_to_next_deadline matches Some(m) ==> m <= u32::MAX,
    ensures
        r == (match millis_to_next_deadline {
            Some(m) => m,
            None => 1000,
        }),
{
    match millis_to_next_deadline {
        Some(m) => m as u32,
        None => 1000,
    }
}

/// System timer ticks of the ESP32-C3's default sleep when no timer is due.
pub const ESP_DEFAULT_SLEEP_TICKS: u64 = 800_000;

/// The ESP32-C3's wake-up alarm target: the next timer deadline (or the
/// default sleep) counted at two system timer ticks per kernel tick, from
/// the current reading `now`.
pub fn esp_alarm_target(now: u64, ticks_to_next_deadline: Option<u64>) -> (r: u64)
    requires
        now + 2 * (match ticks_to_next_deadline {
            Some(t) => t,
            None => ESP_DEFAULT_SLEEP_TICKS,
        }) <= u64::MAX,
    ensures
        r == now + 2 * (match ticks_to_next_deadline {
            Some(t) => t,
            None => ESP_DEFAULT_SLEEP_TICKS,
        }),
{
    let amount = match ticks_to_next_deadline {
        Some(t) => t,
        None => ESP_DEFAULT_SLEEP_TICKS,
    };
    now + amount * 2
}

/// However far the timer counted down between two readings, as long as it
/// is less than a full turn, the elapsed ticks are exactly that far.
pub proof fn lemma_elapsed_ticks(start: u32, d: u32)
    ensures
        ({
            let now = if start >= d { start - d } else { start + 0x1_0000_0000int - d };
            (if start >= now { start - now } else { start + 0x1_0000_0000int - now }) == d
        }),
{
}

} // verus!
