use automation_hat::{Error, Fraction, LedChannelMux, CHANNEL_COUNT, LED};

fn frac(num: i64, den: u32) -> Fraction {
    Fraction { num, den }
}

#[test]
fn byte_rounds_half_up() {
    assert_eq!(frac(0, 1).to_byte(), 0);
    assert_eq!(frac(1, 1).to_byte(), 255);
    assert_eq!(frac(1, 2).to_byte(), 128);
    assert_eq!(frac(1, 3).to_byte(), 85);
    assert_eq!(frac(2, 3).to_byte(), 170);
    assert_eq!(frac(7, 7).to_byte(), 255);
}

#[test]
fn unit_range() {
    assert!(frac(0, 5).in_unit_range());
    assert!(frac(5, 5).in_unit_range());
    assert!(!frac(6, 5).in_unit_range());
    assert!(!frac(-1, 5).in_unit_range());
    assert!(!frac(0, 0).in_unit_range());
}

#[test]
fn new_mux_frame_is_dark() {
    let mux = LedChannelMux::new();
    let f = mux.frame();
    assert_eq!(f.values, vec![0u8; CHANNEL_COUNT as usize]);
    assert_eq!(f.mask, 0);
}

#[test]
fn set_channel_builds_whole_frame() {
    let mut mux = LedChannelMux::new();
    let f = mux.set_channel(0, frac(1, 1)).unwrap();
    assert_eq!(f.values[0], 255);
    assert_eq!(f.mask, 1);
    let f = mux.set_channel(17, frac(1, 2)).unwrap();
    assert_eq!(f.values[0], 255);
    assert_eq!(f.values[17], 128);
    assert_eq!(f.values.len(), 18);
    assert_eq!(f.mask, 1 | (1 << 17));
    let f = mux.set_channel(0, frac(0, 1)).unwrap();
    assert_eq!(f.values[0], 0);
    assert_eq!(f.mask, 1 << 17);
    assert_eq!(mux.frame(), f);
}

#[test]
fn earlier_channels_survive_later_updates() {
    let mut mux = LedChannelMux::new();
    let levels = [frac(1, 4), frac(1, 1), frac(2, 5), frac(0, 1), frac(3, 3)];
    let mut expected = vec![0u8; 18];
    for (i, level) in levels.iter().enumerate() {
        let channel = (i * 3) as u8;
        let f = mux.set_channel(channel, *level).unwrap();
        expected[channel as usize] = level.to_byte();
        assert_eq!(f.values, expected);
    }
    assert_eq!(mux.brightness(0), 64);
    assert_eq!(mux.brightness(3), 255);
    assert_eq!(mux.brightness(6), 102);
    assert_eq!(mux.brightness(9), 0);
    assert_eq!(mux.brightness(12), 255);
    assert_eq!(mux.brightness(1), 0);
}

#[test]
fn set_channel_rejects_bad_level_without_change() {
    let mut mux = LedChannelMux::new();
    mux.set_channel(2, frac(1, 1)).unwrap();
    assert_eq!(mux.set_channel(2, frac(3, 2)), Err(Error::Validation));
    assert_eq!(mux.set_channel(2, frac(-1, 2)), Err(Error::Validation));
    assert_eq!(mux.brightness(2), 255);
}

#[test]
fn set_channel_rejects_channel_out_of_range() {
    let mut mux = LedChannelMux::new();
    assert_eq!(mux.set_channel(18, frac(1, 1)), Err(Error::InvariantViolation));
    assert_eq!(mux.frame().mask, 0);
}

#[test]
fn led_on_off() {
    let mut mux = LedChannelMux::new();
    let mut led = LED::new(4);
    assert_eq!(led.channel(), 4);
    assert_eq!(led.brightness, frac(0, 1));
    let f = led.on(&mut mux).unwrap();
    assert_eq!(led.brightness, frac(1, 1));
    assert_eq!(f.values[4], 255);
    assert_eq!(f.mask, 1 << 4);
    let f = led.off(&mut mux).unwrap();
    assert_eq!(led.brightness, frac(0, 1));
    assert_eq!(f.values[4], 0);
    assert_eq!(f.mask, 0);
}

#[test]
fn set_brightness_out_of_range_is_refused() {
    let mut mux = LedChannelMux::new();
    let mut led = LED::new(1);
    led.set_brightness(&mut mux, frac(1, 4)).unwrap();
    for bad in [frac(5, 4), frac(-1, 4), frac(1, 0), frac(i64::MAX, 1)] {
        assert_eq!(led.set_brightness(&mut mux, bad), Err(Error::Validation));
        assert_eq!(led.set(&mut mux, bad), Err(Error::Validation));
        assert_eq!(led.brightness, frac(1, 4));
        assert_eq!(mux.brightness(1), 64);
    }
}

#[test]
fn toggle_twice_restores() {
    let mut mux = LedChannelMux::new();
    let mut led = LED::new(9);
    led.toggle(&mut mux).unwrap();
    assert_eq!(led.brightness, frac(1, 1));
    assert_eq!(mux.brightness(9), 255);
    led.toggle(&mut mux).unwrap();
    assert_eq!(led.brightness, frac(0, 1));
    assert_eq!(mux.brightness(9), 0);

    led.on(&mut mux).unwrap();
    let before = mux.frame();
    led.toggle(&mut mux).unwrap();
    led.toggle(&mut mux).unwrap();
    assert_eq!(led.brightness, frac(1, 1));
    assert_eq!(mux.frame(), before);
}

#[test]
fn toggle_from_half_turns_off() {
    let mut mux = LedChannelMux::new();
    let mut led = LED::new(3);
    led.set(&mut mux, frac(1, 2)).unwrap();
    led.toggle(&mut mux).unwrap();
    assert_eq!(led.brightness, frac(0, 1));
    led.toggle(&mut mux).unwrap();
    assert_eq!(led.brightness, frac(1, 1));
}

#[test]
fn two_handles_alternating_keep_their_own_levels() {
    let mut mux = LedChannelMux::new();
    let mut a = LED::new(5);
    let mut b = LED::new(6);
    let mut last = (frac(0, 1), frac(0, 1));
    for i in 0..20i64 {
        let la = frac(i, 20);
        let lb = frac(20 - i, 20);
        a.set(&mut mux, la).unwrap();
        b.set(&mut mux, lb).unwrap();
        last = (la, lb);
    }
    assert_eq!(a.brightness, last.0);
    assert_eq!(b.brightness, last.1);
    let f = mux.frame();
    assert_eq!(f.values[5], last.0.to_byte());
    assert_eq!(f.values[6], last.1.to_byte());
    assert_eq!(f.values[5], 242);
    assert_eq!(f.values[6], 13);
}

#[test]
fn cloned_handle_shares_channel() {
    let mut mux = LedChannelMux::new();
    let a = LED::new(7);
    let mut b = a.clone();
    b.on(&mut mux).unwrap();
    assert_eq!(a.channel(), b.channel());
    assert_eq!(a.brightness, frac(0, 1));
    assert_eq!(mux.brightness(7), 255);
}
