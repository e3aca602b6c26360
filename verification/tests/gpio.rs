use rustffi::{PinCall, RtInputPin, RtOutputPin, RtPin, RtPinMode};

#[test]
fn pin_modes_have_kernel_numbers() {
    assert_eq!(u8::from(RtPinMode::Output), 0);
    assert_eq!(u8::from(RtPinMode::Input), 1);
    assert_eq!(u8::from(RtPinMode::InputPullUp), 2);
    assert_eq!(u8::from(RtPinMode::InputPullDown), 3);
    assert_eq!(u8::from(RtPinMode::OutputOpenDrain), 4);
    let v: u8 = RtPinMode::Input.into();
    assert_eq!(v, 1);
}

#[test]
fn pin_lookup_failure_names_the_pin() {
    match RtPin::try_from_lookup("PA1", -1) {
        Err(msg) => assert_eq!(msg, "pin PA1 not found"),
        Ok(_) => panic!("a negative pin number is a failed lookup"),
    }
}

#[test]
fn pin_lookup_success_keeps_number() {
    let pin = RtPin::try_from_lookup("PB12", 28).ok().unwrap();
    assert_eq!(pin.pin(), 28);
    let zero = RtPin::try_from_lookup("PA0", 0).ok().unwrap();
    assert_eq!(zero.pin(), 0);
}

#[test]
fn pin_new_sets_mode() {
    let (pin, call) = RtPin::new(7, RtPinMode::InputPullUp);
    assert_eq!(pin.pin(), 7);
    assert_eq!(call, PinCall::Mode { pin: 7, mode: 2 });
    assert_eq!(pin.set_mode(RtPinMode::OutputOpenDrain), PinCall::Mode { pin: 7, mode: 4 });
}

#[test]
fn output_pin_is_set_to_output_and_driven() {
    let (out, call) = RtOutputPin::new(5);
    assert_eq!(call, PinCall::Mode { pin: 5, mode: 0 });
    assert_eq!(out.pin(), 5);
    assert_eq!(out.set_high(), PinCall::Write { pin: 5, value: 1 });
    assert_eq!(out.set_low(), PinCall::Write { pin: 5, value: 0 });
    assert!(out.is_set_high(1));
    assert!(!out.is_set_low(1));
    assert!(out.is_set_low(0));
}

#[test]
fn input_pin_is_set_to_input_and_read() {
    let (inp, call) = RtInputPin::new(3);
    assert_eq!(call, PinCall::Mode { pin: 3, mode: 1 });
    assert_eq!(inp.pin(), 3);
    assert!(inp.is_high(1));
    assert!(!inp.is_low(1));
    assert!(inp.is_low(0));
    assert!(!inp.is_high(0));
}

#[test]
fn other_levels_are_neither_high_nor_low() {
    let (inp, _) = RtInputPin::new(3);
    assert!(!inp.is_high(2) && !inp.is_low(2));
    assert!(!inp.is_high(-1) && !inp.is_low(-1));
}
