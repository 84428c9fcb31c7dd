use mnemos_platforms::i2c_puppet::{
    self, CapsLock, FifoCount, HsvColor, I2cPuppetSettings, KeyStatus, KeySubscriptionError, PuppetCfg,
    RawKey, RgbColor,
};
use mnemos_platforms::i2c_puppet::{
    write_step, BusResult, Error, I2cPuppetServer, LedState, PuppetAction, Request, Response, WriteStep,
};
use mnemos_platforms::twi::{I2cErrorKind, NoAcknowledgeSource};
use mnemos_platforms::keyboard::{sim_key_to_key_event, KeyCode, KeyKind, Modifiers, SimKey, MOD_CAPS, MOD_LCTRL, MOD_LSHIFT, MOD_RGUI};

#[test]
fn sim_letters_follow_shift_and_caps() {
    let e = sim_key_to_key_event(SimKey::A, 0, false, true).unwrap();
    assert_eq!(e.code, KeyCode::Char('a'));
    assert_eq!(e.kind, KeyKind::Pressed);
    assert_eq!(e.modifiers, Modifiers::new());
    let e = sim_key_to_key_event(SimKey::A, MOD_LSHIFT, false, true).unwrap();
    assert_eq!(e.code, KeyCode::Char('A'));
    assert!(e.modifiers.shift);
    let e = sim_key_to_key_event(SimKey::Num1, MOD_CAPS, true, true).unwrap();
    assert_eq!(e.code, KeyCode::Char('!'));
    assert_eq!(e.kind, KeyKind::Held);
    assert!(e.modifiers.capslock);
}

#[test]
fn sim_special_keys_and_modifiers() {
    let e = sim_key_to_key_event(SimKey::Return, MOD_LCTRL | MOD_RGUI, true, false).unwrap();
    assert_eq!(e.code, KeyCode::Enter);
    assert_eq!(e.kind, KeyKind::Released);
    assert!(e.modifiers.ctrl && e.modifiers.meta && !e.modifiers.alt);
    assert_eq!(sim_key_to_key_event(SimKey::F12, 0, false, true).unwrap().code, KeyCode::F(12));
    assert_eq!(sim_key_to_key_event(SimKey::LShift, MOD_LSHIFT, false, true), None);
    assert_eq!(sim_key_to_key_event(SimKey::Other, 0, false, true), None);
    assert_eq!(sim_key_to_key_event(SimKey::Backslash, MOD_LSHIFT, false, true).unwrap().code, KeyCode::Char('|'));
}

#[test]
fn hsv_to_rgb_exact_values() {
    assert_eq!(HsvColor::from_hue(0).to_rgb_color(), RgbColor::red());
    assert_eq!(HsvColor { h: 100, s: 0, v: 77 }.to_rgb_color(), RgbColor { r: 77, g: 77, b: 77 });
    // h = 100: section 2, offset (100 - 86) * 6 = 84
    // p = 0, t = 255 * (255 - 255 * 171 / 256) / 256 = 255 * 85 / 256 = 84
    assert_eq!(HsvColor::from_hue(100).to_rgb_color(), RgbColor { r: 0, g: 255, b: 84 });
    // h = 255: section 5
    let c = HsvColor::from_hue(255).to_rgb_color();
    assert_eq!((c.r, c.g), (255, 0));
    let via_from: RgbColor = HsvColor::from_hue(100).into();
    assert_eq!(via_from, HsvColor::from_hue(100).to_rgb_color());
}

#[test]
fn puppet_register_writes() {
    assert_eq!(i2c_puppet::config_write(), (0x82, 0x93));
    assert_eq!(i2c_puppet::led_toggle_write(true), (0xA0, 1));
    assert_eq!(i2c_puppet::led_toggle_write(false), (0xA0, 0));
    assert_eq!(
        i2c_puppet::color_writes(RgbColor { r: 1, g: 2, b: 3 }),
        vec![(0xA1, 1), (0xA2, 2), (0xA3, 3)]
    );
    assert_eq!(
        i2c_puppet::startup_led_writes(),
        vec![(0xA1, 0), (0xA2, 255), (0xA3, 0), (0xA0, 255)]
    );
    assert_eq!(i2c_puppet::led_status_registers(), vec![0x21, 0x22, 0x23, 0x20]);
    let s = i2c_puppet::led_state(1, 2, 3, 7);
    assert!(s.on);
    assert_eq!(s.color, RgbColor { r: 1, g: 2, b: 3 });
    assert_eq!(i2c_puppet::firmware_version(0x21), (2, 1));
    let all = PuppetCfg {
        overflow_on: true,
        overflow_int: true,
        capslock_int: true,
        numlock_int: true,
        key_int: true,
        panic_int: true,
        report_mods: true,
        use_mods: true,
    };
    assert_eq!(all.bits(), 0xff);
}

#[test]
fn puppet_settings_defaults() {
    let s = I2cPuppetSettings::default();
    assert_eq!(s.channel_capacity, 8);
    assert_eq!(s.subscription_capacity, 32);
    assert_eq!(s.max_subscriptions, 8);
    assert!(s.keymux);
    assert_eq!(s.max_retries, 10);
    assert_eq!(s.poll_interval, std::time::Duration::from_millis(50));
    assert_eq!(s.min_backoff, std::time::Duration::from_micros(5));
    let s = s.with_poll_interval(std::time::Duration::from_secs(2));
    assert_eq!(s.poll_interval, std::time::Duration::from_secs(2));
    assert_eq!(I2cPuppetSettings::default_poll_interval(), std::time::Duration::from_millis(50));
}

#[test]
fn raw_keys_become_events_and_chars() {
    let status = KeyStatus { num_lock: true, caps_lock: CapsLock::On, fifo_count: FifoCount::Known(3) };
    let e = i2c_puppet::raw_key_event(&status, RawKey::Pressed(b'x')).unwrap();
    assert_eq!(e.code, KeyCode::Char('x'));
    assert_eq!(e.kind, KeyKind::Pressed);
    assert!(e.modifiers.numlock && e.modifiers.capslock);
    assert_eq!(i2c_puppet::raw_key_event(&status, RawKey::Released(8)).unwrap().code, KeyCode::Backspace);
    assert_eq!(i2c_puppet::raw_key_event(&status, RawKey::Invalid), None);
    assert_eq!(i2c_puppet::next_char_step(&status, RawKey::Pressed(b'x')), Some(Ok('X')));
    assert_eq!(i2c_puppet::next_char_step(&status, RawKey::Pressed(b'1')), Some(Ok('1')));
    assert_eq!(i2c_puppet::next_char_step(&status, RawKey::Held(b'x')), None);
    assert_eq!(i2c_puppet::next_char_step(&status, RawKey::Invalid), Some(Err(KeySubscriptionError::InvalidKey)));
    let off = KeyStatus { num_lock: false, caps_lock: CapsLock::Unknown, fifo_count: FifoCount::EmptyOr32 };
    assert_eq!(i2c_puppet::next_char_step(&off, RawKey::Pressed(b'x')), Some(Ok('x')));
    assert!(!i2c_puppet::fifo_drained(&off));
    assert!(i2c_puppet::fifo_drained(&KeyStatus { num_lock: false, caps_lock: CapsLock::Off, fifo_count: FifoCount::Known(0) }));
}

#[test]
fn puppet_server_plans_and_replies() {
    let mut srv = I2cPuppetServer::new(1);
    assert!(!srv.should_poll(false));
    assert_eq!(srv.plan(Request::ToggleLed(true)), PuppetAction::Write(vec![(0xA0, 1)]));
    assert_eq!(
        srv.plan(Request::SetColor(RgbColor { r: 9, g: 8, b: 7 })),
        PuppetAction::Write(vec![(0xA1, 9), (0xA2, 8), (0xA3, 7)])
    );
    assert_eq!(srv.plan(Request::SubscribeToRawKeys), PuppetAction::Subscribe);
    assert_eq!(srv.subscriptions, 1);
    assert!(srv.should_poll(false));
    assert_eq!(srv.plan(Request::SubscribeToRawKeys), PuppetAction::RefuseSubscription);
    assert_eq!(I2cPuppetServer::refusal(), Err(Error::AtMaxSubscriptions));
    srv.drop_subscription();
    assert_eq!(srv.subscriptions, 0);
    assert_eq!(
        I2cPuppetServer::reply(Request::SetBacklight(40), Ok(BusResult::Done)),
        Ok(Response::Backlight(40))
    );
    assert_eq!(
        I2cPuppetServer::reply(Request::GetVersion, Ok(BusResult::Version(1, 2))),
        Ok(Response::GetVersion(1, 2))
    );
    let led = LedState { color: RgbColor::blue(), on: false };
    assert_eq!(I2cPuppetServer::reply(Request::GetLedStatus, Ok(BusResult::Led(led))), Ok(Response::GetLedStatus(led)));
    let nack = I2cErrorKind::NoAcknowledge(NoAcknowledgeSource::Address);
    assert_eq!(I2cPuppetServer::reply(Request::ToggleLed(true), Err(nack)), Err(Error::I2c(nack)));
}

/// Runs a register-write action against a bus that answers each write with
/// the next of `answers`, returning the writes made and the outcome.
fn run_write_action(
    writes: &Vec<(u8, u8)>,
    answers: &[Result<(), I2cErrorKind>],
) -> (Vec<(u8, u8)>, Result<BusResult, I2cErrorKind>) {
    let mut made = Vec::new();
    let mut last = Ok(());
    loop {
        match write_step(writes, made.len(), last) {
            WriteStep::Send(reg, val) => {
                last = answers[made.len()];
                made.push((reg, val));
            }
            WriteStep::Finished(o) => return (made, o),
        }
    }
}

#[test]
fn set_color_stops_at_first_failed_write() {
    let mut srv = I2cPuppetServer::new(1);
    let req = Request::SetColor(RgbColor { r: 1, g: 2, b: 3 });
    let action = srv.plan(req);
    let writes = match &action {
        PuppetAction::Write(w) => w.clone(),
        _ => panic!("SetColor writes registers"),
    };
    let nack = I2cErrorKind::NoAcknowledge(NoAcknowledgeSource::Data);
    let (made, outcome) = run_write_action(&writes, &[Ok(()), Err(nack), Ok(())]);
    assert_eq!(made, vec![(0xA1, 1), (0xA2, 2)]);
    assert_eq!(outcome, Err(nack));
    assert_eq!(I2cPuppetServer::respond(req, &action, outcome), Err(Error::I2c(nack)));
    let (made, outcome) = run_write_action(&writes, &[Ok(()), Ok(()), Ok(())]);
    assert_eq!(made, vec![(0xA1, 1), (0xA2, 2), (0xA3, 3)]);
    assert_eq!(I2cPuppetServer::respond(req, &action, outcome), Ok(Response::SetColor(RgbColor { r: 1, g: 2, b: 3 })));
}

#[test]
fn refused_and_abandoned_subscriptions() {
    let mut srv = I2cPuppetServer::new(1);
    let a = srv.plan(Request::SubscribeToRawKeys);
    assert_eq!(a, PuppetAction::Subscribe);
    srv.after_reply(&a, false);
    assert_eq!(srv.subscriptions, 0);
    let a = srv.plan(Request::SubscribeToRawKeys);
    srv.after_reply(&a, true);
    assert_eq!(srv.subscriptions, 1);
    let b = srv.plan(Request::SubscribeToRawKeys);
    assert_eq!(b, PuppetAction::RefuseSubscription);
    assert_eq!(
        I2cPuppetServer::respond(Request::SubscribeToRawKeys, &b, Ok(BusResult::Done)),
        Err(Error::AtMaxSubscriptions)
    );
    srv.after_reply(&b, false);
    assert_eq!(srv.subscriptions, 1);
}
