use mnemos_platforms::ccu::{self, BusGating, BusReset, ModuleStep};
use mnemos_platforms::config::{
    self, DisplayConfig, I2cConfiguration, I2cPuppetConfiguration, InterruptPin, LedBlinkPin,
    LedBlinkService, Mapping, PlatformConfig,
};
use mnemos_platforms::idle;
use mnemos_platforms::plic::{self, InterruptTable, MaskError, Priority};
use mnemos_platforms::sim_display::RenderState;
use mnemos_platforms::timer::{self, Timer0};
use mnemos_platforms::wifi::Wifi;
use std::time::Duration;

#[test]
fn priorities_round_trip() {
    for bits in 0..40u32 {
        match Priority::try_from_bits(bits) {
            Ok(p) => {
                assert!(bits < 32);
                assert_eq!(p.into_bits(), bits);
            }
            Err(_) => assert!(bits >= 32),
        }
    }
    assert_eq!(Priority::try_from_bits(1).ok(), Some(Priority::P1));
}

#[test]
fn enable_register_and_bit() {
    assert_eq!(plic::index_mie(18), (0, 1 << 18));
    assert_eq!(plic::index_mie(75), (2, 1 << 11));
    assert_eq!(plic::index_mie(167), (5, 1 << 7));
    let reg = plic::unmask_bits(0b1001, 1 << 2);
    assert_eq!(reg, 0b1101);
    assert_eq!(plic::mask_bits(reg, 1 << 2), 0b1001);
    assert_eq!(plic::mask_bits(0b1001, 1 << 2), 0b1001);
}

#[test]
fn vector_table_registration() {
    let mut t = InterruptTable::new();
    assert_eq!(t.vectors.len(), 168);
    assert_eq!(t.vectors[18].id, Some(18));
    assert_eq!(t.vectors[24].id, None);
    assert_eq!(t.can_mask(24), Err(MaskError::NotFound(24)));
    assert_eq!(t.can_mask(500), Err(MaskError::NotFound(500)));
    assert_eq!(t.can_mask(76), Err(MaskError::NoHandler(76)));
    assert!(!t.handler_registered(76));
    t.register(76);
    assert_eq!(t.can_mask(76), Ok(()));
    assert!(t.handler_registered(76));
    assert_eq!(plic::interrupt_list_vec().len(), 56);
}

fn d1_config(i2c: bool, puppet: bool, blink: bool) -> PlatformConfig {
    PlatformConfig {
        i2c: I2cConfiguration { enabled: i2c, mapping: Mapping::Twi2 },
        i2c_puppet: I2cPuppetConfiguration {
            enabled: puppet,
            interrupt_pin: Some(InterruptPin::PB7),
            poll_interval: I2cPuppetConfiguration::default_poll_interval(),
        },
        blink_service: LedBlinkService {
            enabled: blink,
            blink_pin: LedBlinkService::default_led_pin(),
            blink_interval: LedBlinkService::default_blink_interval(),
        },
    }
}

#[test]
fn config_defaults() {
    assert_eq!(I2cConfiguration::default_mapping(), Mapping::Twi0);
    assert_eq!(I2cPuppetConfiguration::default_poll_interval(), Duration::from_millis(50));
    assert_eq!(LedBlinkService::default_led_pin(), LedBlinkPin::PC1);
    assert_eq!(LedBlinkService::default_blink_interval(), Duration::from_millis(250));
    assert_eq!(DisplayConfig::default_kchannel_depth(), 2);
    assert_eq!(DisplayConfig::default_frames_per_second(), 20);
    assert_eq!(config::default_sleep_cap(), Duration::from_millis(100));
    assert_eq!(config::sleep_cap(None), Duration::from_millis(100));
    assert_eq!(config::sleep_cap(Some(Duration::from_millis(3))), Duration::from_millis(3));
}

#[test]
fn boot_plan_follows_config() {
    let plan = d1_config(true, true, true).boot_plan();
    assert_eq!(plan.i2c, Some(Mapping::Twi2));
    assert!(plan.i2c_puppet);
    assert_eq!(plan.i2c_puppet_irq, Some(InterruptPin::PB7));
    assert_eq!(plan.blink, Some((LedBlinkPin::PC1, Duration::from_millis(250))));
    // the keyboard needs the bus
    let plan = d1_config(false, true, false).boot_plan();
    assert_eq!(plan.i2c, None);
    assert!(!plan.i2c_puppet);
    assert_eq!(plan.i2c_puppet_irq, None);
    assert_eq!(plan.blink, None);
    assert_eq!(config::led_on_value(LedBlinkPin::PC1), 0b10);
    assert_eq!(config::led_on_value(LedBlinkPin::PD18), 1 << 18);
    assert_eq!(config::next_hue(255), 0);
    assert_eq!(config::next_hue(7), 8);
}

#[test]
fn idle_decisions() {
    assert!(idle::should_idle(0, false));
    assert!(!idle::should_idle(1, false));
    assert!(!idle::should_idle(0, true));
    assert_eq!(idle::d1_sleep_ticks(None), 300_000);
    assert_eq!(idle::d1_sleep_ticks(Some(5)), 5);
    assert_eq!(idle::d1_sleep_ticks(Some(u64::MAX)), 0x4000_0000);
    assert_eq!(idle::elapsed_ticks(10, 4), 6);
    assert_eq!(idle::elapsed_ticks(2, u32::MAX - 1), 4);
    assert_eq!(Timer0::clock_ticks(u32::MAX), 0);
    assert_eq!(Timer0::clock_ticks(0), u32::MAX as u64);
    assert_eq!(idle::sim_sleep_micros(None, 100_000), 100_000);
    assert_eq!(idle::sim_sleep_micros(Some(3), 100_000), 3);
    assert!(idle::web_should_sleep(0, true));
    assert!(idle::web_should_sleep(2, false));
    assert!(!idle::web_should_sleep(2, true));
    assert_eq!(idle::web_sleep_millis(None), 1000);
    assert_eq!(idle::web_sleep_millis(Some(12)), 12);
}

#[test]
fn clock_gating_sequences() {
    assert_eq!(
        ccu::enable_module_steps(),
        vec![ModuleStep::Reset(BusReset::Deassert), ModuleStep::Delay(20), ModuleStep::Gating(BusGating::Pass)]
    );
    assert_eq!(
        ccu::disable_module_steps(),
        vec![ModuleStep::Gating(BusGating::Mask), ModuleStep::Reset(BusReset::Assert)]
    );
    assert_eq!(ccu::delay_deadline(100, 20), 580);
}

#[test]
fn wifi_pieces() {
    assert_eq!(Wifi::tx_piece(10, 64), 10);
    assert_eq!(Wifi::tx_piece(100, 64), 64);
}

#[test]
fn timer_words_and_alarms() {
    assert_eq!(timer::comparator_words(0x1_0000_0002), (1, 2));
    assert_eq!(timer::comparator_reset_words(), (0xffff_ffff, 0xffff_ffff));
    assert_eq!(idle::esp_alarm_target(10, None), 1_600_010);
    assert_eq!(idle::esp_alarm_target(10, Some(5)), 20);
}

#[test]
fn render_loop_redraws_when_dirty_or_every_fifth_turn() {
    let mut s = RenderState::new();
    assert!(!s.polls_events());
    assert!(s.tick(true));
    assert!(s.polls_events());
    let mut redraws = Vec::new();
    for _ in 0..10 {
        redraws.push(s.tick(false));
    }
    assert_eq!(redraws, vec![false, false, false, false, true, false, false, false, false, true]);
}
