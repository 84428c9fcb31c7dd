//! Platform configuration: the Allwinner D1 boards' configuration (I²C bus,
//! `i2c_puppet` keyboard, LED blink service) and the Melpomene simulator's
//! display settings, with the defaults that apply to fields left out.
use crate::time::{duration_from_millis, millis_duration};
use core::time::Duration;
use vstd::prelude::*;

verus! {

/// Which TWI controller the I²C bus uses.
#[derive(Clone, Copy, Debug, PartialEq, Eq, Structural)]
pub enum Mapping {
    Twi0,
    Twi1,
    Twi2,
    Twi3,
}

/// I²C bus configuration.
#[derive(Clone, Copy, Debug, PartialEq, Eq, Structural)]
pub struct I2cConfiguration {
    pub enabled: bool,
    pub mapping: Mapping,
}

impl I2cConfiguration {
    /// The controller used when none is configured: TWI0.
    pub fn default_mapping() -> (r: Mapping)
        ensures
            r == Mapping::Twi0,
    {
        Mapping::Twi0
    }
}

/// The pin that carries the `i2c_puppet` interrupt line.
#[derive(Clone, Copy, Debug, PartialEq, Eq, Structural)]
pub enum InterruptPin {
    PB7,
}

/// `i2c_puppet` keyboard configuration.
#[derive(Clone, Copy)]
pub struct I2cPuppetConfiguration {
    pub enabled: bool,
    pub interrupt_pin: Option<InterruptPin>,
    pub poll_interval: Duration,
}

impl I2cPuppetConfiguration {
    /// The poll interval used when none is configured: 50 ms.
    pub fn default_poll_interval() -> (r: Duration)
        ensures
            r == millis_duration(50),
    {
        duration_from_millis(50)
    }
}

/// The pin of the LED that the blink service blinks.
#[derive(Clone, Copy, Debug, PartialEq, Eq, Structural)]
pub enum LedBlinkPin {
    PC1,
    PD18,
}

/// LED blink service configuration.
#[derive(Clone, Copy)]
pub struct LedBlinkService {
    pub enabled: bool,
    pub blink_pin: LedBlinkPin,
    pub blink_interval: Duration,
}

impl LedBlinkService {
    /// The LED pin used when none is configured: PC1.
    pub fn default_led_pin() -> (r: LedBlinkPin)
        ensures
            r == LedBlinkPin::PC1,
    {
        LedBlinkPin::PC1
    }

    /// The blink interval used when none is configured: 250 ms.
    pub fn default_blink_interval() -> (r: Duration)
        ensures
            r == millis_duration(250),
    {
        duration_from_millis(250)
    }
}

/// The D1 boards' platform configuration.
pub struct PlatformConfig {
    pub i2c: I2cConfiguration,
    pub i2c_puppet: I2cPuppetConfiguration,
    pub blink_service: LedBlinkService,
}

/// What the D1 boards bring up for a platform configuration.
pub struct BootPlan {
    /// The TWI controller of the I²C bus, if the bus is enabled.
    pub i2c: Option<Mapping>,
    /// Whether the `i2c_puppet` keyboard driver runs: it needs the I²C bus.
    pub i2c_puppet: bool,
    /// The pin whose interrupt wakes the keyboard driver, if it runs.
    pub i2c_puppet_irq: Option<InterruptPin>,
    /// The LED blinked and the blink interval, if the service is enabled.
    pub blink: Option<(LedBlinkPin, Duration)>,
}

/// The boot plan of a configuration.
pub open spec fn boot_plan_of(c: PlatformConfig) -> BootPlan {
    let i2c = if c.i2c.enabled { Some(c.i2c.mapping) } else { None };
    let puppet = c.i2c.enabled && c.i2c_puppet.enabled;
    BootPlan {
        i2c,
        i2c_puppet: puppet,
        i2c_puppet_irq: if puppet { c.i2c_puppet.interrupt_pin } else { None },
        blink: if c.blink_service.enabled {
            Some((c.blink_service.blink_pin, c.blink_service.blink_interval))
        } else {
            None
        },
    }
}

impl PlatformConfig {
    /// Decides what to bring up: the I²C bus if enabled, the keyboard
    /// driver if it is enabled and the bus is up (with its interrupt pin if
    /// one is configured), and the LED blinker if enabled.
    pub fn boot_plan(&self) -> (r: BootPlan)
        ensures
            r == boot_plan_of(*self),
    {
        let i2c = if self.i2c.enabled { Some(self.i2c.mapping) } else { None };
        let puppet = i2c.is_some() && self.i2c_puppet.enabled;
        let irq = if puppet { self.i2c_puppet.interrupt_pin } else { None };
        let blink = if self.blink_service.enabled {
            Some((self.blink_service.blink_pin, self.blink_service.blink_interval))
        } else {
            None
        };
        BootPlan { i2c, i2c_puppet: puppet, i2c_puppet_irq: irq, blink }
    }
}

/// The data register value that lights the blink LED: bit 1 of port C for
/// PC1, bit 18 of port D for PD18.
pub fn led_on_value(pin: LedBlinkPin) -> (r: u32)
    ensures
        r == (match pin {
            LedBlinkPin::PC1 => 0b10u32,
            LedBlinkPin::PD18 => 0x4_0000u32,
        }),
{
    match pin {
        LedBlinkPin::PC1 => 0b10,
        LedBlinkPin::PD18 => 0x4_0000,
    }
}

/// The next hue of the LED's walk through the colour wheel.
pub fn next_hue(hue: u8) -> (r: u8)
    ensures
        r == (if hue == 255 { 0 } else { hue + 1 }),
{
    hue.wrapping_add(1)
}

/// The simulator's display settings.
#[derive(Clone, Copy, Debug, PartialEq, Eq, Structural)]
pub struct DisplayConfig {
    /// Whether the display is enabled.
    pub enabled: bool,
    /// The depth of the request channel.
    pub kchannel_depth: usize,
    /// The most frames drawn per second; at least 1.
    pub frames_per_second: usize,
}

impl DisplayConfig {
    /// The request channel depth used when none is configured: 2.
    pub const DEFAULT_KCHANNEL_DEPTH: usize = 2;
    /// The frame rate used when none is configured: 20.
    pub const DEFAULT_FRAMES_PER_SECOND: usize = 20;

    /// The request channel depth used when none is configured.
    pub fn default_kchannel_depth() -> (r: usize)
        ensures
            r == Self::DEFAULT_KCHANNEL_DEPTH,
    {
        Self::DEFAULT_KCHANNEL_DEPTH
    }

    /// The frame rate used when none is configured.
    pub fn default_frames_per_second() -> (r: usize)
        ensures
            r == Self::DEFAULT_FRAMES_PER_SECOND,
    {
        Self::DEFAULT_FRAMES_PER_SECOND
    }
}

/// The simulator's settings for its TCP serial port, but for the socket
/// address, which the simulator parses itself.
#[derive(Clone, Copy, Debug, PartialEq, Eq, Structural)]
pub struct TcpUartSizes {
    pub kchannel_depth: usize,
    pub incoming_size: usize,
    pub outgoing_size: usize,
}

/// The TCP serial port's channel depth used when none is configured.
pub const DEFAULT_TCP_KCHANNEL_DEPTH: usize = 2;
/// The TCP serial port's incoming buffer size used when none is configured.
pub const DEFAULT_TCP_INCOMING_SIZE: usize = 4096;
/// The TCP serial port's outgoing buffer size used when none is configured.
pub const DEFAULT_TCP_OUTGOING_SIZE: usize = 4096;

/// The longest the simulator sleeps before polling its executor again, when
/// none is configured: 100 ms.
pub fn default_sleep_cap() -> (r: Duration)
    ensures
        r == millis_duration(100),
{
    duration_from_millis(100)
}

/// The sleep cap in effect: the configured one, else the default.
pub fn sleep_cap(configured: Option<Duration>) -> (r: Duration)
    ensures
        r == (match configured {
            Some(d) => d,
            None => millis_duration(100),
        }),
{
    match configured {
        Some(d) => d,
        None => default_sleep_cap(),
    }
}

} // verus!
