use waterctl::hal::{FakeOutputPin, ScriptedCounter, ScriptedInputPin};
use waterctl::sr04::{ticks_to_distance, SR04};

#[test]
fn test_ticks_to_distance_exact_values() {
    assert_eq!(ticks_to_distance(0), Some(0));
    assert_eq!(ticks_to_distance(14), Some(0));
    assert_eq!(ticks_to_distance(15), Some(1));
    assert_eq!(ticks_to_distance(580), Some(40));
    assert_eq!(ticks_to_distance(16383), Some(1129));
}

#[test]
fn test_ticks_to_distance_saturation_is_no_reading() {
    assert_eq!(ticks_to_distance(16384), None);
    assert_eq!(ticks_to_distance(u16::MAX), None);
}

#[test]
fn test_measure_echo_never_rises_times_out() {
    // the echo line stays low; the counter climbs to the 50000-tick timeout
    let counter = ScriptedCounter::new(vec![0, 5, 10000, 30000, 50000]);
    let echo = ScriptedInputPin::new(vec![]);
    let trig = FakeOutputPin::new();
    let mut sensor = SR04::new(counter, trig, echo);
    assert_eq!(sensor.measure_distance(), None);
}

#[test]
fn test_measure_echo_stuck_high_is_no_reading() {
    // the echo rises at once, stays high until the tick count saturates the
    // microsecond conversion, and the saturated value is not a distance
    let counter = ScriptedCounter::new(vec![0, 5, 20000]);
    let echo = ScriptedInputPin::new(vec![true, true, true, true, false]);
    let trig = FakeOutputPin::new();
    let mut sensor = SR04::new(counter, trig, echo);
    assert_eq!(sensor.measure_distance(), None);
}

#[test]
fn test_measure_reports_converted_ticks() {
    // the echo's high phase lasts 580 ticks: 2320 us, 40 cm
    let counter = ScriptedCounter::new(vec![0, 5, 580, 30000]);
    let echo = ScriptedInputPin::new(vec![true, false]);
    let trig = FakeOutputPin::new();
    let mut sensor = SR04::new(counter, trig, echo);
    assert_eq!(sensor.measure_distance(), Some(40));
}
