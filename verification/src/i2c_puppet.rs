//! The `i2c_puppet` keyboard firmware: LED colours, the register writes the
//! driver makes, the driver's settings, and the translation of raw keyboard
//! FIFO entries into key events and characters.
use crate::keyboard::{KeyCode, KeyEvent, KeyKind, Modifiers};
use crate::time::{duration_from_micros, duration_from_millis, micros_duration, millis_duration};
use core::time::Duration;
use vstd::prelude::*;

verus! {

/// The `i2c_puppet` service.
pub struct I2cPuppetService;

/// An RGB colour of the `i2c_puppet` LED.
#[derive(Clone, Copy, Debug, PartialEq, Eq, Structural)]
pub struct RgbColor {
    pub r: u8,
    pub g: u8,
    pub b: u8,
}

/// A colour given by hue, saturation and value, each 0 to 255.
#[derive(Clone, Copy, Debug, PartialEq, Eq, Structural)]
pub struct HsvColor {
    pub h: u8,
    pub s: u8,
    pub v: u8,
}

/// The state of the `i2c_puppet` LED.
#[derive(Clone, Copy, Debug, PartialEq, Eq, Structural)]
pub struct LedState {
    pub color: RgbColor,
    pub on: bool,
}

/// Width of one of the six sections of the hue wheel.
pub const HUE_SECTION: u16 = 43;

/// The RGB value of an HSV colour, in 8-bit fixed point: the hue wheel is cut
/// into six sections of 43; within a section the rising and falling
/// components are interpolated.
pub open spec fn hsv_to_rgb(c: HsvColor) -> RgbColor {
    if c.s == 0 {
        RgbColor { r: c.v, g: c.v, b: c.v }
    } else {
        let section = c.h / 43;
        let offset = (c.h - section * 43) * 6;
        let p = ((c.v * (255 - c.s)) / 256) as u8;
        let q = ((c.v * (255 - (c.s * offset) / 256)) / 256) as u8;
        let t = ((c.v * (255 - (c.s * (255 - offset)) / 256)) / 256) as u8;
        if section == 0 {
            RgbColor { r: c.v, g: t, b: p }
        } else if section == 1 {
            RgbColor { r: q, g: c.v, b: p }
        } else if section == 2 {
            RgbColor { r: p, g: c.v, b: t }
        } else if section == 3 {
            RgbColor { r: p, g: q, b: c.v }
        } else if section == 4 {
            RgbColor { r: t, g: p, b: c.v }
        } else {
            RgbColor { r: c.v, g: p, b: q }
        }
    }
}

impl HsvColor {
    /// The fully saturated, full-value colour of a hue.
    pub fn from_hue(h: u8) -> (r: HsvColor)
        ensures
            r == (HsvColor { h, s: 255, v: 255 }),
    {
        HsvColor { h, s: 255, v: 255 }
    }

    /// Converts to RGB.
    pub fn to_rgb_color(self) -> (r: RgbColor)
        ensures
            r == hsv_to_rgb(self),
    {
        let h = self.h;
        let s = self.s;
        let v = self.v;
        if s == 0 {
            return RgbColor { r: v, g: v, b: v };
        }
        let section: u16 = h as u16 / HUE_SECTION;
        let offset: u16 = (h as u16 - section * HUE_SECTION) * 6;
        assert(offset <= 252);
        let v16 = v as u16;
        let s16 = s as u16;
        assert(v16 * (255 - s16) <= 65025) by (nonlinear_arith)
            requires v16 <= 255, s16 <= 255;
        assert(s16 * offset <= 64260) by (nonlinear_arith)
            requires s16 <= 255, offset <= 252;
        assert(s16 * (255 - offset) <= 65025) by (nonlinear_arith)
            requires s16 <= 255, offset <= 252;
        let sq: u16 = s16 * offset / 256;
        let st: u16 = s16 * (255 - offset) / 256;
        assert(v16 * (255 - sq) <= 65025) by (nonlinear_arith)
            requires v16 <= 255, sq <= 255;
        assert(v16 * (255 - st) <= 65025) by (nonlinear_arith)
            requires v16 <= 255, st <= 255;
        let p = (v16 * (255 - s16) / 256) as u8;
        let q = (v16 * (255 - sq) / 256) as u8;
        let t = (v16 * (255 - st) / 256) as u8;
        if section == 0 {
            RgbColor { r: v, g: t, b: p }
        } else if section == 1 {
            RgbColor { r: q, g: v, b: p }
        } else if section == 2 {
            RgbColor { r: p, g: v, b: t }
        } else if section == 3 {
            RgbColor { r: p, g: q, b: v }
        } else if section == 4 {
            RgbColor { r: t, g: p, b: v }
        } else {
            RgbColor { r: v, g: p, b: q }
        }
    }
}

/// Scaling by `x / 256` grows with `x` and never exceeds the scaled value.
proof fn lemma_scale(v: int, x: int, y: int)
    requires
        0 <= v <= 255,
        0 <= x <= y <= 255,
    ensures
        0 <= v * x / 256 <= v * y / 256 <= v,
{
    assert(0 <= v * x <= v * y <= v * 255) by (nonlinear_arith)
        requires 0 <= v <= 255, 0 <= x <= y <= 255;
}

/// The levels a saturated colour's components take within its hue section:
/// the falling one `q`, the rising one `t` and the shade `p`, all between
/// the shade and the value.
proof fn lemma_section_levels(h: u8, s: u8, v: u8)
    requires
        s > 0,
    ensures
        ({
            let section = h / 43;
            let offset = (h - section * 43) * 6;
            let p = (v * (255 - s)) / 256;
            let q = (v * (255 - (s * offset) / 256)) / 256;
            let t = (v * (255 - (s * (255 - offset)) / 256)) / 256;
            &&& 0 <= offset <= 252
            &&& 0 <= p <= q <= v && p <= t <= v
            &&& hsv_to_rgb(HsvColor { h, s, v }) == if section == 0 {
                RgbColor { r: v, g: t as u8, b: p as u8 }
            } else if section == 1 {
                RgbColor { r: q as u8, g: v, b: p as u8 }
            } else if section == 2 {
                RgbColor { r: p as u8, g: v, b: t as u8 }
            } else if section == 3 {
                RgbColor { r: p as u8, g: q as u8, b: v }
            } else if section == 4 {
                RgbColor { r: t as u8, g: p as u8, b: v }
            } else {
                RgbColor { r: v, g: p as u8, b: q as u8 }
            }
        }),
{
    let section = h / 43;
    let offset = (h - section * 43) * 6;
    assert(0 <= offset <= 252);
    lemma_scale(s as int, offset, 255);
    lemma_scale(s as int, 255 - offset, 255);
    let aq = (s * offset) / 256;
    let at = (s * (255 - offset)) / 256;
    lemma_scale(v as int, 255 - s, 255 - aq);
    lemma_scale(v as int, 255 - s, 255 - at);
}

/// Around the hue wheel, a saturated colour has one component at its value
/// and one at its shade (`v * (255 - s) / 256`), the third lying between:
/// red is full for hues up to 42 and from 215, green from 43 to 128, blue
/// from 129 to 214; the shade is in blue up to 85, in red from 86 to 171
/// and in green from 172.
pub proof fn lemma_hue_wheel(h: u8, s: u8, v: u8)
    requires
        s > 0,
    ensures
        ({
            let c = hsv_to_rgb(HsvColor { h, s, v });
            let shade = (v * (255 - s)) / 256;
            &&& c.r <= v && c.g <= v && c.b <= v
            &&& c.r >= shade && c.g >= shade && c.b >= shade
            &&& h < 43 ==> c.r == v && c.b == shade
            &&& 43 <= h < 86 ==> c.g == v && c.b == shade
            &&& 86 <= h < 129 ==> c.g == v && c.r == shade
            &&& 129 <= h < 172 ==> c.b == v && c.r == shade
            &&& 172 <= h < 215 ==> c.b == v && c.g == shade
            &&& 215 <= h ==> c.r == v && c.g == shade
        }),
{
    lemma_section_levels(h, s, v);
}

/// Within a hue section the third component moves one way as the hue
/// grows: green rises towards yellow (hues up to 42), red falls towards
/// green (43 to 85), blue rises towards cyan (86 to 128), green falls
/// towards blue (129 to 171), red rises towards magenta (172 to 214) and
/// blue falls back towards red (from 215).
pub proof fn lemma_hue_wheel_direction(h1: u8, h2: u8, s: u8, v: u8)
    requires
        s > 0,
        h1 <= h2,
        h1 / 43 == h2 / 43,
    ensures
        ({
            let c1 = hsv_to_rgb(HsvColor { h: h1, s, v });
            let c2 = hsv_to_rgb(HsvColor { h: h2, s, v });
            &&& h2 < 43 ==> c1.g <= c2.g
            &&& 43 <= h1 < 86 ==> c1.r >= c2.r
            &&& 86 <= h1 < 129 ==> c1.b <= c2.b
            &&& 129 <= h1 < 172 ==> c1.g >= c2.g
            &&& 172 <= h1 < 215 ==> c1.r <= c2.r
            &&& 215 <= h1 ==> c1.b >= c2.b
        }),
{
    lemma_section_levels(h1, s, v);
    lemma_section_levels(h2, s, v);
    let section = h1 / 43;
    let o1 = (h1 - section * 43) * 6;
    let o2 = (h2 - section * 43) * 6;
    assert(0 <= o1 <= o2 <= 252);
    lemma_scale(s as int, o1, o2);
    lemma_scale(s as int, 255 - o2, 255 - o1);
    lemma_scale(s as int, o2, 255);
    lemma_scale(s as int, 255 - o1, 255);
    let q1 = (s * o1) / 256;
    let q2 = (s * o2) / 256;
    let t1 = (s * (255 - o1)) / 256;
    let t2 = (s * (255 - o2)) / 256;
    lemma_scale(v as int, 255 - q2, 255 - q1);
    lemma_scale(v as int, 255 - t1, 255 - t2);
}

/// A fully saturated, full-value colour always has a component at full
/// brightness and one that is off.
pub proof fn lemma_full_hue_extremes(h: u8)
    ensures
        ({
            let c = hsv_to_rgb(HsvColor { h, s: 255, v: 255 });
            (c.r == 255 || c.g == 255 || c.b == 255) && (c.r == 0 || c.g == 0 || c.b == 0)
        }),
{
}

/// A colour without saturation is grey at its value.
pub proof fn lemma_grey(h: u8, v: u8)
    ensures
        hsv_to_rgb(HsvColor { h, s: 0, v }) == (RgbColor { r: v, g: v, b: v }),
{
}

impl RgbColor {
    /// Pure red.
    pub fn red() -> (r: RgbColor)
        ensures
            r == (RgbColor { r: 255, g: 0, b: 0 }),
    {
        RgbColor { r: 255, g: 0, b: 0 }
    }

    /// Pure green.
    pub fn green() -> (r: RgbColor)
        ensures
            r == (RgbColor { r: 0, g: 255, b: 0 }),
    {
        RgbColor { r: 0, g: 255, b: 0 }
    }

    /// Pure blue.
    pub fn blue() -> (r: RgbColor)
        ensures
            r == (RgbColor { r: 0, g: 0, b: 255 }),
    {
        RgbColor { r: 0, g: 0, b: 255 }
    }
}

impl From<HsvColor> for RgbColor {
    fn from(hsv: HsvColor) -> (r: RgbColor) {
        hsv.to_rgb_color()
    }
}

impl vstd::std_specs::convert::FromSpecImpl<HsvColor> for RgbColor {
    open spec fn obeys_from_spec() -> bool {
        true
    }

    open spec fn from_spec(v: HsvColor) -> RgbColor {
        hsv_to_rgb(v)
    }
}


/// Settings of the `i2c_puppet` driver.
pub struct I2cPuppetSettings {
    pub channel_capacity: usize,
    pub subscription_capacity: usize,
    pub max_subscriptions: usize,
    /// Whether key presses are also forwarded to the keyboard multiplexer.
    pub keymux: bool,
    pub min_backoff: Duration,
    pub max_retries: usize,
    pub poll_interval: Duration,
}

impl I2cPuppetSettings {
    /// The default interval for polling the keyboard: 50 ms.
    pub fn default_poll_interval() -> (d: Duration)
        ensures
            d == millis_duration(50),
    {
        duration_from_millis(50)
    }

    /// The default first backoff when retrying a key status poll: 5 µs.
    pub fn default_min_backoff() -> (d: Duration)
        ensures
            d == micros_duration(5),
    {
        duration_from_micros(5)
    }

    /// The same settings with another poll interval.
    pub fn with_poll_interval(self, poll_interval: Duration) -> (r: I2cPuppetSettings)
        ensures
            r == (I2cPuppetSettings { poll_interval, ..self }),
    {
        I2cPuppetSettings { poll_interval, ..self }
    }
}

/// The default settings: channel capacity 8, subscription capacity 32, at
/// most 8 subscriptions, forwarding to the keyboard multiplexer, 10
/// retries, and the default poll interval and backoff.
pub open spec fn default_puppet_settings() -> I2cPuppetSettings {
    I2cPuppetSettings {
        channel_capacity: 8,
        subscription_capacity: 32,
        max_subscriptions: 8,
        keymux: true,
        min_backoff: micros_duration(5),
        max_retries: 10,
        poll_interval: millis_duration(50),
    }
}

impl Default for I2cPuppetSettings {
    fn default() -> (r: I2cPuppetSettings)
        ensures
            r == default_puppet_settings(),
    {
        I2cPuppetSettings {
            channel_capacity: 8,
            subscription_capacity: 32,
            max_subscriptions: 8,
            poll_interval: I2cPuppetSettings::default_poll_interval(),
            keymux: true,
            max_retries: 10,
            min_backoff: I2cPuppetSettings::default_min_backoff(),
        }
    }
}

/// The `i2c_puppet` device's bus address.
pub const ADDR: u8 = 0x1f;
/// Or-ed into a register number to write it.
pub const REG_WRITE: u8 = 0x80;
/// Register: the LED on or off.
pub const REG_LED_ON: u8 = 0x20;
/// Register: the LED's red level.
pub const REG_LED_R: u8 = 0x21;
/// Register: the LED's green level.
pub const REG_LED_G: u8 = 0x22;
/// Register: the LED's blue level.
pub const REG_LED_B: u8 = 0x23;
/// Register: configuration.
pub const REG_CFG: u8 = 0x02;

/// The configuration register's flags, bit 0 first.
#[derive(Clone, Copy, Debug, PartialEq, Eq, Structural)]
pub struct PuppetCfg {
    /// On FIFO overflow, overwrite the oldest entry.
    pub overflow_on: bool,
    /// Interrupt on FIFO overflow.
    pub overflow_int: bool,
    /// Interrupt when caps lock toggles.
    pub capslock_int: bool,
    /// Interrupt when num lock toggles.
    pub numlock_int: bool,
    /// Interrupt on a key press.
    pub key_int: bool,
    /// Interrupt when the firmware panics.
    pub panic_int: bool,
    /// Report alt, sym and the shift keys.
    pub report_mods: bool,
    /// Let alt, sym and the shift keys modify the keys reported.
    pub use_mods: bool,
}

/// `2^k` if `b`, else 0.
pub open spec fn flag(b: bool, k: nat) -> int {
    if b { vstd::arithmetic::power2::pow2(k) as int } else { 0 }
}

/// The register value of a configuration.
pub open spec fn cfg_bits(c: PuppetCfg) -> int {
    flag(c.overflow_on, 0) + flag(c.overflow_int, 1) + flag(c.capslock_int, 2) + flag(c.numlock_int, 3)
        + flag(c.key_int, 4) + flag(c.panic_int, 5) + flag(c.report_mods, 6) + flag(c.use_mods, 7)
}

impl PuppetCfg {
    /// The register value.
    pub fn bits(&self) -> (r: u8)
        ensures
            r == cfg_bits(*self),
    {
        proof {
            vstd::arithmetic::power2::lemma2_to64();
        }
        let mut r: u8 = 0;
        if self.overflow_on { r = r + 1; }
        if self.overflow_int { r = r + 2; }
        if self.capslock_int { r = r + 4; }
        if self.numlock_int { r = r + 8; }
        if self.key_int { r = r + 16; }
        if self.panic_int { r = r + 32; }
        if self.report_mods { r = r + 64; }
        if self.use_mods { r = r + 128; }
        r
    }
}

/// The configuration the driver sets at start: interrupt on key presses and
/// FIFO overflow, overwrite old entries on overflow, modifiers applied.
pub open spec fn startup_cfg() -> PuppetCfg {
    PuppetCfg {
        overflow_on: true,
        overflow_int: true,
        capslock_int: false,
        numlock_int: false,
        key_int: true,
        panic_int: false,
        report_mods: false,
        use_mods: true,
    }
}

/// The write that configures the device at start: register, then value.
pub fn config_write() -> (r: (u8, u8))
    ensures
        r.0 == REG_CFG | REG_WRITE,
        r.1 == cfg_bits(startup_cfg()),
{
    let cfg = PuppetCfg {
        overflow_on: true,
        overflow_int: true,
        capslock_int: false,
        numlock_int: false,
        key_int: true,
        panic_int: false,
        report_mods: false,
        use_mods: true,
    };
    (REG_CFG | REG_WRITE, cfg.bits())
}

/// The write that turns the LED on or off.
pub fn led_toggle_write(on: bool) -> (r: (u8, u8))
    ensures
        r == (REG_LED_ON | REG_WRITE, if on { 1u8 } else { 0u8 }),
{
    (REG_LED_ON | REG_WRITE, if on { 1 } else { 0 })
}

/// The writes that set the LED colour: red, green, then blue.
pub fn color_writes(color: RgbColor) -> (r: Vec<(u8, u8)>)
    ensures
        r@ == seq![
            (REG_LED_R | REG_WRITE, color.r),
            (REG_LED_G | REG_WRITE, color.g),
            (REG_LED_B | REG_WRITE, color.b),
        ],
{
    let mut v: Vec<(u8, u8)> = Vec::new();
    v.push((REG_LED_R | REG_WRITE, color.r));
    v.push((REG_LED_G | REG_WRITE, color.g));
    v.push((REG_LED_B | REG_WRITE, color.b));
    v
}

/// The registers read, in order, for the LED status: red, green, blue, on.
pub fn led_status_registers() -> (r: Vec<u8>)
    ensures
        r@ == seq![REG_LED_R, REG_LED_G, REG_LED_B, REG_LED_ON],
{
    let mut v: Vec<u8> = Vec::new();
    v.push(REG_LED_R);
    v.push(REG_LED_G);
    v.push(REG_LED_B);
    v.push(REG_LED_ON);
    v
}

/// The LED status from the values read from its red, green, blue and on
/// registers: any non-zero on value means on.
pub fn led_state(r: u8, g: u8, b: u8, on: u8) -> (s: LedState)
    ensures
        s == (LedState { color: RgbColor { r, g, b }, on: on != 0 }),
{
    LedState { color: RgbColor { r, g, b }, on: on != 0 }
}

/// A raw entry of the keyboard's key FIFO.
#[derive(Clone, Copy, Debug, PartialEq, Eq, Structural)]
pub enum RawKey {
    Invalid,
    Pressed(u8),
    Held(u8),
    Released(u8),
}

/// The caps lock state the keyboard reports.
#[derive(Clone, Copy, Debug, PartialEq, Eq, Structural)]
pub enum CapsLock {
    Off,
    On,
    Unknown,
}

/// How many entries the keyboard's FIFO holds.
#[derive(Clone, Copy, Debug, PartialEq, Eq, Structural)]
pub enum FifoCount {
    Known(u8),
    EmptyOr32,
}

/// The keyboard's key status register.
#[derive(Clone, Copy, Debug, PartialEq, Eq, Structural)]
pub struct KeyStatus {
    pub num_lock: bool,
    pub caps_lock: CapsLock,
    pub fifo_count: FifoCount,
}

/// Whether the status says that the FIFO is empty for sure, which ends a
/// poll.
pub fn fifo_drained(status: &KeyStatus) -> (r: bool)
    ensures
        r == (status.fifo_count == FifoCount::Known(0)),
{
    match status.fifo_count {
        FifoCount::Known(n) => n == 0,
        FifoCount::EmptyOr32 => false,
    }
}

/// The key code of a raw key byte: 0x08 is backspace, any other byte is
/// the character with that code.
pub open spec fn raw_keycode(x: u8) -> KeyCode {
    if x == 8 {
        KeyCode::Backspace
    } else {
        KeyCode::Char(x as char)
    }
}

/// The key event of a FIFO entry: its kind and key code, with num lock and
/// caps lock taken from the status; an invalid entry has none.
pub open spec fn raw_key_event_of(status: KeyStatus, key: RawKey) -> Option<KeyEvent> {
    let modifiers = Modifiers {
        shift: false,
        ctrl: false,
        alt: false,
        meta: false,
        numlock: status.num_lock,
        capslock: status.caps_lock == CapsLock::On,
    };
    match key {
        RawKey::Invalid => None,
        RawKey::Pressed(x) => Some(KeyEvent { kind: KeyKind::Pressed, modifiers, code: raw_keycode(x) }),
        RawKey::Held(x) => Some(KeyEvent { kind: KeyKind::Held, modifiers, code: raw_keycode(x) }),
        RawKey::Released(x) => Some(KeyEvent { kind: KeyKind::Released, modifiers, code: raw_keycode(x) }),
    }
}

fn keycode(x: u8) -> (r: KeyCode)
    ensures
        r == raw_keycode(x),
{
    if x == 8 {
        KeyCode::Backspace
    } else {
        KeyCode::Char(x as char)
    }
}

/// The key event forwarded to the keyboard multiplexer for a FIFO entry.
pub fn raw_key_event(status: &KeyStatus, key: RawKey) -> (r: Option<KeyEvent>)
    ensures
        r == raw_key_event_of(*status, key),
{
    let capslock = match status.caps_lock {
        CapsLock::On => true,
        _ => false,
    };
    let modifiers = Modifiers {
        shift: false,
        ctrl: false,
        alt: false,
        meta: false,
        numlock: status.num_lock,
        capslock,
    };
    match key {
        RawKey::Invalid => None,
        RawKey::Pressed(x) => Some(KeyEvent { kind: KeyKind::Pressed, modifiers, code: keycode(x) }),
        RawKey::Held(x) => Some(KeyEvent { kind: KeyKind::Held, modifiers, code: keycode(x) }),
        RawKey::Released(x) => Some(KeyEvent { kind: KeyKind::Released, modifiers, code: keycode(x) }),
    }
}

/// Why no character could be read from a key subscription.
#[derive(Clone, Copy, Debug, PartialEq, Eq, Structural)]
pub enum KeySubscriptionError {
    Closed,
    Decode,
    InvalidKey,
}

/// The ASCII upper case of a byte: `a` to `z` become `A` to `Z`, other
/// bytes stay.
pub open spec fn ascii_upper(x: u8) -> u8 {
    if 97 <= x <= 122 { (x - 32) as u8 } else { x }
}

/// What a FIFO entry yields when reading characters: a press gives its
/// character (upper case when caps lock is on), an invalid entry an error,
/// and a hold or a release nothing (reading goes on).
pub open spec fn next_char_of(status: KeyStatus, key: RawKey) -> Option<Result<char, KeySubscriptionError>> {
    match key {
        RawKey::Pressed(x) => Some(Ok((if status.caps_lock == CapsLock::On { ascii_upper(x) } else { x }) as char)),
        RawKey::Invalid => Some(Err(KeySubscriptionError::InvalidKey)),
        _ => None,
    }
}

/// One step of reading a character from raw key entries: the character or
/// error the entry yields, or `None` to read the next entry.
pub fn next_char_step(status: &KeyStatus, key: RawKey) -> (r: Option<Result<char, KeySubscriptionError>>)
    ensures
        r == next_char_of(*status, key),
{
    match key {
        RawKey::Pressed(x) => {
            let caps = match status.caps_lock {
                CapsLock::On => true,
                _ => false,
            };
            let c = if caps && 97 <= x && x <= 122 { x - 32 } else { x };
            Some(Ok(c as char))
        },
        RawKey::Invalid => Some(Err(KeySubscriptionError::InvalidKey)),
        _ => None,
    }
}
/// Register: the firmware version.
pub const REG_VER: u8 = 0x01;

/// The firmware version in the version register's value: the major
/// version in the high nibble, the minor in the low one.
pub fn firmware_version(val: u8) -> (r: (u8, u8))
    ensures
        r == (val / 16, val % 16),
{
    (val / 16, val % 16)
}

/// The writes that light the LED green at start: red, green and blue
/// levels, then on.
pub fn startup_led_writes() -> (r: Vec<(u8, u8)>)
    ensures
        r@ == seq![
            (REG_LED_R | REG_WRITE, 0u8),
            (REG_LED_G | REG_WRITE, 255u8),
            (REG_LED_B | REG_WRITE, 0u8),
            (REG_LED_ON | REG_WRITE, 255u8),
        ],
{
    let mut v = color_writes(RgbColor::green());
    v.push((REG_LED_ON | REG_WRITE, 255));
    v
}

/// A request to the `i2c_puppet` service.
#[derive(Clone, Copy, Debug, PartialEq, Eq, Structural)]
pub enum Request {
    GetVersion,
    SetColor(RgbColor),
    SetBacklight(u8),
    GetBacklight,
    ToggleLed(bool),
    GetLedStatus,
    SubscribeToRawKeys,
}

/// What the server does on the bus for a request.
#[derive(Clone, Debug, PartialEq, Eq)]
pub enum PuppetAction {
    /// Read the firmware version through the keyboard driver.
    ReadVersion,
    /// Make these register writes, in order.
    Write(Vec<(u8, u8)>),
    /// Set the keyboard backlight through the keyboard driver.
    SetBacklight(u8),
    /// Read the keyboard backlight through the keyboard driver.
    ReadBacklight,
    /// Read the LED registers ([`led_status_registers`]).
    ReadLedStatus,
    /// Open a raw key subscription.
    Subscribe,
    /// Refuse the subscription: there are as many as allowed.
    RefuseSubscription,
}

/// What the bus gave back for a request that succeeded.
#[derive(Clone, Copy, Debug, PartialEq, Eq, Structural)]
pub enum BusResult {
    /// Nothing to report (writes, a new subscription).
    Done,
    /// The firmware version, major then minor.
    Version(u8, u8),
    /// A backlight level.
    Backlight(u8),
    /// The LED's state.
    Led(LedState),
}

/// The service's answer to a request.
#[derive(Clone, Copy, Debug, PartialEq, Eq, Structural)]
pub enum Response {
    GetVersion(u8, u8),
    SetColor(RgbColor),
    Backlight(u8),
    ToggleLed(bool),
    GetLedStatus(LedState),
    SubscribeToKeys,
}

/// Why the service refused a request.
#[derive(Clone, Copy, Debug, PartialEq, Eq, Structural)]
pub enum Error {
    I2c(crate::twi::I2cErrorKind),
    AtMaxSubscriptions,
}

/// The server's bookkeeping: how many raw key subscriptions are open.
#[derive(Clone, Copy, Debug, PartialEq, Eq, Structural)]
pub struct I2cPuppetServer {
    pub subscriptions: usize,
    pub max_subscriptions: usize,
}

/// Whether a bus result is of the kind a request produces.
pub open spec fn fits(req: Request, b: BusResult) -> bool {
    match req {
        Request::GetVersion => b is Version,
        Request::GetBacklight => b is Backlight,
        Request::GetLedStatus => b is Led,
        _ => b is Done,
    }
}

/// The answer for a request whose bus work ended with `outcome`.
pub open spec fn reply_of(req: Request, outcome: Result<BusResult, crate::twi::I2cErrorKind>) -> Result<Response, Error> {
    match outcome {
        Err(e) => Err(Error::I2c(e)),
        Ok(b) => match (req, b) {
            (Request::SetColor(c), _) => Ok(Response::SetColor(c)),
            (Request::ToggleLed(on), _) => Ok(Response::ToggleLed(on)),
            (Request::SetBacklight(l), _) => Ok(Response::Backlight(l)),
            (Request::GetBacklight, BusResult::Backlight(l)) => Ok(Response::Backlight(l)),
            (Request::GetVersion, BusResult::Version(major, minor)) => Ok(Response::GetVersion(major, minor)),
            (Request::GetLedStatus, BusResult::Led(s)) => Ok(Response::GetLedStatus(s)),
            (Request::SubscribeToRawKeys, _) => Ok(Response::SubscribeToKeys),
            _ => Err(Error::I2c(crate::twi::I2cErrorKind::Other)),
        },
    }
}

impl I2cPuppetServer {
    /// A server with no subscriptions, allowing `max_subscriptions`.
    pub fn new(max_subscriptions: usize) -> (r: I2cPuppetServer)
        ensures
            r == (I2cPuppetServer { subscriptions: 0, max_subscriptions }),
    {
        I2cPuppetServer { subscriptions: 0, max_subscriptions }
    }

    /// Decides what to do on the bus for a request. A subscription is
    /// counted when it is opened, and refused when as many are open as
    /// allowed.
    pub fn plan(&mut self, req: Request) -> (r: PuppetAction)
        ensures
            match req {
                Request::GetVersion => r == PuppetAction::ReadVersion,
                Request::SetColor(c) => r matches PuppetAction::Write(w) && w@ == seq![
                    (REG_LED_R | REG_WRITE, c.r),
                    (REG_LED_G | REG_WRITE, c.g),
                    (REG_LED_B | REG_WRITE, c.b),
                ],
                Request::SetBacklight(l) => r == PuppetAction::SetBacklight(l),
                Request::GetBacklight => r == PuppetAction::ReadBacklight,
                Request::ToggleLed(on) => r matches PuppetAction::Write(w) && w@ == seq![
                    (REG_LED_ON | REG_WRITE, if on { 1u8 } else { 0u8 }),
                ],
                Request::GetLedStatus => r == PuppetAction::ReadLedStatus,
                Request::SubscribeToRawKeys => if old(self).subscriptions < old(self).max_subscriptions {
                    r == PuppetAction::Subscribe
                } else {
                    r == PuppetAction::RefuseSubscription
                },
            },
            final(self).max_subscriptions == old(self).max_subscriptions,
            final(self).subscriptions == (if req == Request::SubscribeToRawKeys && old(self).subscriptions
                < old(self).max_subscriptions {
                old(self).subscriptions + 1
            } else {
                old(self).subscriptions as int
            }),
    {
        match req {
            Request::GetVersion => PuppetAction::ReadVersion,
            Request::SetColor(c) => PuppetAction::Write(color_writes(c)),
            Request::SetBacklight(l) => PuppetAction::SetBacklight(l),
            Request::GetBacklight => PuppetAction::ReadBacklight,
            Request::ToggleLed(on) => {
                let mut w: Vec<(u8, u8)> = Vec::new();
                w.push(led_toggle_write(on));
                PuppetAction::Write(w)
            },
            Request::GetLedStatus => PuppetAction::ReadLedStatus,
            Request::SubscribeToRawKeys => {
                if self.subscriptions < self.max_subscriptions {
                    self.subscriptions = self.subscriptions + 1;
                    PuppetAction::Subscribe
                } else {
                    PuppetAction::RefuseSubscription
                }
            },
        }
    }

    /// Takes back the subscription just opened, when its requester hung up
    /// before the reply.
    pub fn drop_subscription(&mut self)
        requires
            old(self).subscriptions > 0,
        ensures
            final(self).subscriptions == old(self).subscriptions - 1,
            final(self).max_subscriptions == old(self).max_subscriptions,
    {
        self.subscriptions = self.subscriptions - 1;
    }

    /// The answer to a request: what the bus gave back, or the bus error.
    pub fn reply(req: Request, outcome: Result<BusResult, crate::twi::I2cErrorKind>) -> (r: Result<Response, Error>)
        requires
            outcome matches Ok(b) ==> fits(req, b),
        ensures
            r == reply_of(req, outcome),
    {
        match outcome {
            Err(e) => Err(Error::I2c(e)),
            Ok(b) => match (req, b) {
                (Request::SetColor(c), _) => Ok(Response::SetColor(c)),
                (Request::ToggleLed(on), _) => Ok(Response::ToggleLed(on)),
                (Request::SetBacklight(l), _) => Ok(Response::Backlight(l)),
                (Request::GetBacklight, BusResult::Backlight(l)) => Ok(Response::Backlight(l)),
                (Request::GetVersion, BusResult::Version(major, minor)) => Ok(Response::GetVersion(major, minor)),
                (Request::GetLedStatus, BusResult::Led(s)) => Ok(Response::GetLedStatus(s)),
                (Request::SubscribeToRawKeys, _) => Ok(Response::SubscribeToKeys),
                _ => Err(Error::I2c(crate::twi::I2cErrorKind::Other)),
            },
        }
    }

    /// The answer to a subscription that was refused.
    pub fn refusal() -> (r: Result<Response, Error>)
        ensures
            r == Err::<Response, Error>(Error::AtMaxSubscriptions),
    {
        Err(Error::AtMaxSubscriptions)
    }

    /// Whether polling the keyboard is worth it: there is a subscription or
    /// a keyboard multiplexer to feed.
    pub fn should_poll(&self, has_keymux: bool) -> (r: bool)
        ensures
            r == (has_keymux || self.subscriptions > 0),
    {
        has_keymux || self.subscriptions > 0
    }
}

/// The next thing a [`PuppetAction::Write`] does.
#[derive(Clone, Copy, Debug, PartialEq, Eq)]
pub enum WriteStep {
    /// Write the value (second) to the register (first).
    Send(u8, u8),
    /// The action is over, with this outcome.
    Finished(Result<BusResult, crate::twi::I2cErrorKind>),
}

/// The step after `sent` of `writes` were made, the last of them with
/// outcome `last` (`Ok` before the first): a failed write ends the action
/// with its error, else the next write is made, else the action is done.
pub open spec fn write_step_of(writes: Seq<(u8, u8)>, sent: int, last: Result<(), crate::twi::I2cErrorKind>) -> WriteStep {
    match last {
        Err(e) => WriteStep::Finished(Err(e)),
        Ok(_) => if sent < writes.len() {
            WriteStep::Send(writes[sent].0, writes[sent].1)
        } else {
            WriteStep::Finished(Ok(BusResult::Done))
        },
    }
}

/// Decides the next step of a register-write action.
pub fn write_step(writes: &Vec<(u8, u8)>, sent: usize, last: Result<(), crate::twi::I2cErrorKind>) -> (r: WriteStep)
    requires
        sent <= writes.len(),
    ensures
        r == write_step_of(writes@, sent as int, last),
{
    match last {
        Err(e) => WriteStep::Finished(Err(e)),
        Ok(_) => if sent < writes.len() {
            let (reg, val) = writes[sent];
            WriteStep::Send(reg, val)
        } else {
            WriteStep::Finished(Ok(BusResult::Done))
        },
    }
}

/// The writes made and the outcome when [`write_step`] is followed from
/// `sent` writes made, the last with outcome `last`, and the bus answers
/// write `i` with `outcomes[i]`.
pub open spec fn run_writes(
    writes: Seq<(u8, u8)>,
    outcomes: Seq<Result<(), crate::twi::I2cErrorKind>>,
    sent: int,
    last: Result<(), crate::twi::I2cErrorKind>,
) -> (Seq<(u8, u8)>, Result<BusResult, crate::twi::I2cErrorKind>)
    decreases writes.len() - sent,
{
    match write_step_of(writes, sent, last) {
        WriteStep::Finished(o) => (Seq::empty(), o),
        WriteStep::Send(reg, val) => if 0 <= sent < writes.len() {
            let rest = run_writes(writes, outcomes, sent + 1, outcomes[sent]);
            (seq![(reg, val)] + rest.0, rest.1)
        } else {
            (Seq::empty(), Ok(BusResult::Done))
        },
    }
}

proof fn lemma_run_writes_from(
    writes: Seq<(u8, u8)>,
    outcomes: Seq<Result<(), crate::twi::I2cErrorKind>>,
    s: int,
    k: int,
    last: Result<(), crate::twi::I2cErrorKind>,
)
    requires
        0 <= s <= k <= writes.len(),
        outcomes.len() >= writes.len(),
        last is Ok,
        forall|j: int| s <= j < k ==> #[trigger] outcomes[j] is Ok,
    ensures
        k < writes.len() && outcomes[k] is Err ==> run_writes(writes, outcomes, s, last)
            == (writes.subrange(s, k + 1), Err::<BusResult, crate::twi::I2cErrorKind>(outcomes[k]->Err_0)),
        k == writes.len() ==> run_writes(writes, outcomes, s, last)
            == (writes.subrange(s, k), Ok::<BusResult, crate::twi::I2cErrorKind>(BusResult::Done)),
    decreases k - s,
{
    reveal_with_fuel(run_writes, 2);
    if s < k {
        lemma_run_writes_from(writes, outcomes, s + 1, k, outcomes[s]);
        if k < writes.len() && outcomes[k] is Err {
            assert(seq![writes[s]] + writes.subrange(s + 1, k + 1) =~= writes.subrange(s, k + 1));
        }
        if k == writes.len() {
            assert(seq![writes[s]] + writes.subrange(s + 1, k) =~= writes.subrange(s, k));
        }
    } else {
        if k < writes.len() && outcomes[k] is Err {
            assert(seq![writes[k]] + Seq::<(u8, u8)>::empty() =~= writes.subrange(k, k + 1));
        }
        if k == writes.len() {
            assert(writes.subrange(k, k) =~= Seq::<(u8, u8)>::empty());
        }
    }
}

/// Register writes stop at the first failure: when the first `k` writes
/// succeed and write `k` fails, exactly writes `0..=k` are made and the
/// action ends with that write's error; when every write succeeds, all are
/// made and the action ends with [`BusResult::Done`].
pub proof fn lemma_writes_stop_at_first_failure(
    writes: Seq<(u8, u8)>,
    outcomes: Seq<Result<(), crate::twi::I2cErrorKind>>,
    k: int,
)
    requires
        0 <= k <= writes.len(),
        outcomes.len() >= writes.len(),
        forall|j: int| 0 <= j < k ==> #[trigger] outcomes[j] is Ok,
    ensures
        k < writes.len() && outcomes[k] is Err ==> run_writes(writes, outcomes, 0, Ok(()))
            == (writes.take(k + 1), Err::<BusResult, crate::twi::I2cErrorKind>(outcomes[k]->Err_0)),
        k == writes.len() ==> run_writes(writes, outcomes, 0, Ok(()))
            == (writes, Ok::<BusResult, crate::twi::I2cErrorKind>(BusResult::Done)),
{
    lemma_run_writes_from(writes, outcomes, 0, k, Ok(()));
    assert(writes.subrange(0, k + 1) =~= writes.take(k + 1));
    assert(writes.subrange(0, writes.len() as int) =~= writes);
}

impl I2cPuppetServer {
    /// The answer once a request's action is over: a refused subscription is
    /// answered [`Error::AtMaxSubscriptions`], any other action with what its
    /// bus work gave back.
    pub fn respond(req: Request, action: &PuppetAction, outcome: Result<BusResult, crate::twi::I2cErrorKind>) -> (r: Result<Response, Error>)
        requires
            !(action is RefuseSubscription) ==> (outcome matches Ok(b) ==> fits(req, b)),
        ensures
            r == if action is RefuseSubscription {
                Err::<Response, Error>(Error::AtMaxSubscriptions)
            } else {
                reply_of(req, outcome)
            },
    {
        match action {
            PuppetAction::RefuseSubscription => Self::refusal(),
            _ => Self::reply(req, outcome),
        }
    }

    /// After the reply went out (`delivered`) or found its requester gone:
    /// a subscription opened for a requester that hung up is taken back.
    pub fn after_reply(&mut self, action: &PuppetAction, delivered: bool)
        requires
            action is Subscribe ==> old(self).subscriptions > 0,
        ensures
            final(self).max_subscriptions == old(self).max_subscriptions,
            final(self).subscriptions == if action is Subscribe && !delivered {
                old(self).subscriptions - 1
            } else {
                old(self).subscriptions as int
            },
    {
        match action {
            PuppetAction::Subscribe => if !delivered {
                self.drop_subscription();
            },
            _ => {},
        }
    }
}

/// Subscriptions are never opened beyond the limit.
pub proof fn lemma_subscriptions_bounded(s: I2cPuppetServer, req: Request)
    requires
        s.subscriptions <= s.max_subscriptions,
    ensures
        (if req == Request::SubscribeToRawKeys && s.subscriptions < s.max_subscriptions {
            s.subscriptions + 1
        } else {
            s.subscriptions as int
        }) <= s.max_subscriptions,
{
}

} // verus!
