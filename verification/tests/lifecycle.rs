use blink::encoding::{LogicLevel, PinIdentity, PinMode};
use blink::hal::{HalCall, HalTrace};
use blink::lifecycle::{BLINK_PIN, HALF_PERIOD_MS};
use blink::pins::{configure_pin, delay, write_pin};
use blink::{loopy, setup};

fn one_cycle() -> Vec<HalCall> {
    vec![
        HalCall::WritePin(7, 1),
        HalCall::BusyWait(500),
        HalCall::WritePin(7, 0),
        HalCall::BusyWait(500),
    ]
}

#[test]
fn new_trace_is_empty() {
    let hal = HalTrace::new();
    assert!(hal.calls().is_empty());
}

#[test]
fn primitives_record_raw_arguments_in_order() {
    let mut hal = HalTrace::new();
    hal.set_pin_mode(-3, 200);
    hal.write_pin(i16::MAX, 9);
    hal.busy_wait(u32::MAX);
    hal.busy_wait(0);
    assert_eq!(
        hal.calls(),
        &vec![
            HalCall::SetPinMode(-3, 200),
            HalCall::WritePin(i16::MAX, 9),
            HalCall::BusyWait(u32::MAX),
            HalCall::BusyWait(0),
        ]
    );
}

#[test]
fn configure_pin_marshals_both_encodings() {
    let mut hal = HalTrace::new();
    configure_pin(&mut hal, PinIdentity::A2, PinMode::INPUT_PULLDOWN);
    configure_pin(&mut hal, PinIdentity::D0, PinMode::PIN_MODE_NONE);
    assert_eq!(
        hal.calls(),
        &vec![HalCall::SetPinMode(12, 3), HalCall::SetPinMode(0, 0xFF)]
    );
}

#[test]
fn write_pin_marshals_both_encodings() {
    let mut hal = HalTrace::new();
    write_pin(&mut hal, PinIdentity::A0, LogicLevel::HIGH);
    write_pin(&mut hal, PinIdentity::D1, LogicLevel::LOW);
    assert_eq!(
        hal.calls(),
        &vec![HalCall::WritePin(10, 1), HalCall::WritePin(1, 0)]
    );
}

#[test]
fn delay_issues_one_wait_of_that_length() {
    let mut hal = HalTrace::new();
    delay(&mut hal, 1234);
    assert_eq!(hal.calls(), &vec![HalCall::BusyWait(1234)]);
}

#[test]
fn blink_constants() {
    assert_eq!(BLINK_PIN, PinIdentity::D7);
    assert_eq!(HALF_PERIOD_MS, 500);
}

#[test]
fn setup_configures_d7_as_output_once() {
    let mut hal = HalTrace::new();
    setup(&mut hal);
    assert_eq!(hal.calls().len(), 1);
    assert_eq!(
        hal.calls()[0],
        HalCall::SetPinMode(PinIdentity::D7.code(), PinMode::OUTPUT.code())
    );
    assert_eq!(hal.calls()[0], HalCall::SetPinMode(7, 1));
}

#[test]
fn loop_issues_the_four_call_cycle() {
    let mut hal = HalTrace::new();
    loopy(&mut hal);
    assert_eq!(hal.calls(), &one_cycle());
    assert_eq!(
        hal.calls(),
        &vec![
            HalCall::WritePin(PinIdentity::D7.code(), LogicLevel::HIGH.code()),
            HalCall::BusyWait(500),
            HalCall::WritePin(PinIdentity::D7.code(), LogicLevel::LOW.code()),
            HalCall::BusyWait(500),
        ]
    );
}

#[test]
fn setup_then_one_loop() {
    let mut hal = HalTrace::new();
    setup(&mut hal);
    loopy(&mut hal);
    assert_eq!(
        hal.calls(),
        &vec![
            HalCall::SetPinMode(7, 1),
            HalCall::WritePin(7, 1),
            HalCall::BusyWait(500),
            HalCall::WritePin(7, 0),
            HalCall::BusyWait(500),
        ]
    );
}

#[test]
fn loop_repeats_the_same_cycle_every_time() {
    for n in [0usize, 1, 2, 3, 10, 100] {
        let mut hal = HalTrace::new();
        for _ in 0..n {
            loopy(&mut hal);
        }
        assert_eq!(hal.calls().len(), 4 * n);
        for k in 0..n {
            assert_eq!(&hal.calls()[4 * k..4 * k + 4], one_cycle().as_slice());
        }
    }
}

#[test]
fn loop_does_not_depend_on_what_came_before() {
    let mut hal = HalTrace::new();
    hal.write_pin(7, 1);
    hal.set_pin_mode(3, 0xFF);
    hal.busy_wait(1);
    let before: Vec<HalCall> = hal.calls().clone();
    loopy(&mut hal);
    loopy(&mut hal);
    assert_eq!(&hal.calls()[..3], before.as_slice());
    assert_eq!(&hal.calls()[3..7], one_cycle().as_slice());
    assert_eq!(&hal.calls()[7..], one_cycle().as_slice());
}

#[test]
fn callbacks_leave_earlier_calls_untouched() {
    let mut hal = HalTrace::new();
    loopy(&mut hal);
    setup(&mut hal);
    let mut expected = one_cycle();
    expected.push(HalCall::SetPinMode(7, 1));
    assert_eq!(hal.calls(), &expected);
}
