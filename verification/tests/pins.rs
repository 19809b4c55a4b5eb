use freebsd_embedded_hal::gpio::{
    GpioPin, PinState, GPIO_PIN_INPUT, GPIO_PIN_OPENDRAIN, GPIO_PIN_OUTPUT, GPIO_PIN_PRESET_HIGH,
    GPIO_PIN_PRESET_LOW, GPIO_PIN_PUSHPULL,
};

#[test]
fn pin_keeps_its_number_and_capabilities() {
    let pin = GpioPin::new(13, 0xfff);
    assert_eq!(pin.number(), 13);
    assert_eq!(pin.capabilities(), 0xfff);
    let (input, _) = pin.into_input_pin();
    assert_eq!(input.number(), 13);
    assert_eq!(input.capabilities(), 0xfff);
}

#[test]
fn input_transition_writes_the_input_flag() {
    let pin = GpioPin::new(2, 0);
    let (_, flags) = pin.into_input_pin();
    assert_eq!(flags, GPIO_PIN_INPUT);
}

#[test]
fn preset_capable_output_needs_no_level_set() {
    let pin = GpioPin::new(4, GPIO_PIN_PRESET_HIGH | GPIO_PIN_PRESET_LOW);
    let (out, plan) = pin.into_output_pin(PinState::High);
    assert_eq!(plan.config_flags, GPIO_PIN_OUTPUT | GPIO_PIN_PUSHPULL | GPIO_PIN_PRESET_HIGH);
    assert_eq!(plan.follow_up_level, None);
    assert!(out.is_set_high());
}

#[test]
fn output_without_preset_gets_one_level_set_call() {
    let pin = GpioPin::new(4, 0);
    let (out, plan) = pin.into_output_pin(PinState::High);
    assert_eq!(plan.config_flags, GPIO_PIN_OUTPUT | GPIO_PIN_PUSHPULL);
    assert_eq!(plan.follow_up_level, Some(PinState::High));
    assert!(out.is_set_high());
}

#[test]
fn preset_must_match_the_requested_level() {
    // Only the high preset is advertised, but a low initial level is asked for.
    let pin = GpioPin::new(4, GPIO_PIN_PRESET_HIGH);
    let (out, plan) = pin.into_output_pin(PinState::Low);
    assert_eq!(plan.config_flags, GPIO_PIN_OUTPUT | GPIO_PIN_PUSHPULL);
    assert_eq!(plan.follow_up_level, Some(PinState::Low));
    assert!(out.is_set_low());
}

#[test]
fn open_drain_output_carries_its_drive_mode_flag() {
    let pin = GpioPin::new(9, GPIO_PIN_PRESET_LOW);
    let (out, plan) = pin.into_open_drain_output_pin(PinState::Low);
    assert_eq!(plan.config_flags, GPIO_PIN_OUTPUT | GPIO_PIN_OPENDRAIN | GPIO_PIN_PRESET_LOW);
    assert_eq!(plan.follow_up_level, None);
    assert!(out.is_set_low());
}

#[test]
fn set_and_read_back_driven_level() {
    let (mut out, _) = GpioPin::new(1, 0).into_output_pin(PinState::Low);
    assert!(out.is_set_low());
    assert!(!out.is_set_high());
    out.set_high();
    assert!(out.is_set_high());
    out.set_low();
    assert!(out.is_set_low());
}

#[test]
fn toggling_twice_restores_the_driven_level() {
    let (mut out, _) = GpioPin::new(1, 0).into_output_pin(PinState::High);
    assert!(out.is_set_high());
    out.toggle();
    assert!(out.is_set_low());
    out.toggle();
    assert!(out.is_set_high());
}

#[test]
fn input_level_decoding() {
    let (input, _) = GpioPin::new(3, 0).into_input_pin();
    assert_eq!(input.is_high(1), Some(true));
    assert_eq!(input.is_high(0), Some(false));
    assert_eq!(input.is_high(-1), None);
    assert_eq!(input.is_low(1), Some(false));
    assert_eq!(input.is_low(0), Some(true));
    assert_eq!(input.is_low(-1), None);
}
