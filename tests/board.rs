use automation_hat::{Action, AutomationHAT, Event, Fraction, HatType};

#[test]
fn full_board_channel_table() {
    let hat = AutomationHAT::new(HatType::AutomationHAT);
    assert_eq!(hat.hat_type, HatType::AutomationHAT);
    let r1 = hat.relays.one.as_ref().unwrap();
    let r2 = hat.relays.two.as_ref().unwrap();
    assert_eq!(r1.no_led.unwrap().channel(), 6);
    assert_eq!(r1.nc_led.unwrap().channel(), 7);
    assert_eq!(r2.no_led.unwrap().channel(), 8);
    assert_eq!(r2.nc_led.unwrap().channel(), 9);
    assert_eq!(hat.relays.three.no_led.unwrap().channel(), 10);
    assert_eq!(hat.relays.three.nc_led.unwrap().channel(), 11);
    assert_eq!(hat.inputs.one.led.unwrap().channel(), 14);
    assert_eq!(hat.inputs.two.led.unwrap().channel(), 13);
    assert_eq!(hat.inputs.three.led.unwrap().channel(), 12);
    assert_eq!(hat.outputs.one.led.unwrap().channel(), 3);
    assert_eq!(hat.outputs.two.led.unwrap().channel(), 4);
    assert_eq!(hat.outputs.three.led.unwrap().channel(), 5);
    assert_eq!(hat.analog_inputs.one.led.unwrap().channel(), 0);
    assert_eq!(hat.analog_inputs.two.channel, 1);
    assert_eq!(hat.analog_inputs.three.led.unwrap().channel(), 2);
    assert!(hat.inputs.one.auto_light);
    assert!(hat.relays.three.auto_light);
    assert_eq!(hat.lights.frame().mask, 0);
}

#[test]
fn phat_has_no_indicators() {
    let hat = AutomationHAT::new(HatType::AutomationPHAT);
    assert!(hat.relays.one.is_none());
    assert!(hat.relays.two.is_none());
    assert!(hat.relays.three.no_led.is_none());
    assert!(hat.inputs.two.led.is_none());
    assert!(hat.outputs.three.led.is_none());
    assert!(hat.analog_inputs.one.led.is_none());
    assert!(hat.outputs.one.auto_light);
    assert!(HatType::AutomationPHAT.auto_light());
}

#[test]
fn mini_turns_auto_light_off() {
    let hat = AutomationHAT::new(HatType::AutomationHATMini);
    assert!(!HatType::AutomationHATMini.auto_light());
    assert!(!hat.inputs.one.auto_light);
    assert!(!hat.outputs.two.auto_light);
    assert!(!hat.relays.three.auto_light);
    assert!(hat.relays.one.is_none());
}

#[test]
fn board_analog_calibration() {
    let mut hat = AutomationHAT::new(HatType::AutomationPHAT);
    let input = &mut hat.analog_inputs.one;
    assert_eq!(input.max_value, Fraction { num: 64625, den: 512 });
    assert_eq!(input.read(), Action::ReadAdc(0));
    let r = input.resume(&mut hat.lights, Event::AdcRead(Ok(1262)));
    assert_eq!(r, Action::Done(Ok(Fraction { num: 1262 * 512, den: 64625 })));
}

#[test]
fn board_relay_switches_with_indicators() {
    let mut hat = AutomationHAT::new(HatType::AutomationHAT);
    let relay = &mut hat.relays.three;
    assert_eq!(relay.write(&mut hat.lights, true), Action::Flush);
    assert_eq!(relay.resume(&mut hat.lights, Event::Flushed(Ok(()))), Action::Flush);
    assert_eq!(relay.resume(&mut hat.lights, Event::Flushed(Ok(()))), Action::WritePin(true));
    let f = hat.lights.frame();
    assert_eq!(f.values[10], 255);
    assert_eq!(f.values[11], 0);
    assert_eq!(f.mask, 1 << 10);
}
