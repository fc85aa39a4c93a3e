use garage_door_v2::actuator::Actuator;
use garage_door_v2::line::OutputLine;
use garage_door_v2::mqtt::{
    device_topic, mqtt_connection_task, Command, Dispatch, Rejected, Router,
};

fn actuator(name: &str) -> Actuator {
    Actuator::new(OutputLine::new(), name)
}

fn router(names: &[&str]) -> Router {
    let mut r = Router::new();
    for (i, name) in names.iter().enumerate() {
        assert_eq!(r.add(actuator(name)), Ok(i));
    }
    r
}

// Hands one message in and counts the pulses it starts.
fn pulses(r: &mut Router, topic: &str, payload: &[u8]) -> usize {
    let mut count = 0;
    if let Dispatch::Pulse { .. } = mqtt_connection_task(r, &Command::new(topic, payload)) {
        count += 1;
        r.release();
    }
    count
}

#[test]
fn fire_on_the_trigger_topic_pulses_once() {
    let mut r = router(&["doorA"]);
    let d = mqtt_connection_task(&mut r, &Command::new("device/doorA_trigger", b"fire"));
    assert_eq!(d, Dispatch::Pulse { actuator: 0, hold_ms: 200 });
    assert_eq!(r.in_flight(), Some(0));
    assert!(r.actuator(0).unwrap().is_pulsing());
    assert_eq!(r.release(), Some(0));
    assert!(!r.actuator(0).unwrap().is_pulsing());
    assert_eq!(pulses(&mut r, "device/doorA_trigger", b"fire"), 1);
}

#[test]
fn another_payload_pulses_nothing() {
    let mut r = router(&["doorA"]);
    let d = mqtt_connection_task(&mut r, &Command::new("device/doorA_trigger", b"firex"));
    assert_eq!(d, Dispatch::Discard);
    assert_eq!(r.in_flight(), None);
    for payload in [&b""[..], b"fir", b"Fire", b"FIRE", b" fire", b"fire\n", b"activate"] {
        assert_eq!(pulses(&mut r, "device/doorA_trigger", payload), 0);
    }
}

#[test]
fn a_topic_without_the_suffix_pulses_nothing() {
    let mut r = router(&["doorA"]);
    let d = mqtt_connection_task(&mut r, &Command::new("device/doorAtrigger", b"fire"));
    assert_eq!(d, Dispatch::Discard);
    for topic in [
        "device/doorA",
        "device/doorA_trigge",
        "device/doorA_trigger ",
        "device/doorA_triggers",
        "doorA_trigger",
        "devices/doorA_trigger",
        "device/_trigger",
        "",
    ] {
        assert_eq!(pulses(&mut r, topic, b"fire"), 0);
    }
}

#[test]
fn an_actuator_by_another_name_is_not_pulsed() {
    let mut r = router(&["doorB"]);
    let d = mqtt_connection_task(&mut r, &Command::new("device/doorA_trigger", b"fire"));
    assert_eq!(d, Dispatch::Discard);
    assert!(!r.actuator(0).unwrap().is_pulsing());
}

#[test]
fn a_payload_that_is_no_text_is_discarded() {
    let mut r = router(&["doorA"]);
    assert_eq!(pulses(&mut r, "device/doorA_trigger", &[0xff, 0xfe, 0x66, 0x69]), 0);
    assert_eq!(pulses(&mut r, "device/doorA_trigger", &[0x66, 0x69, 0x72, 0x65, 0x80]), 0);
    assert_eq!(pulses(&mut r, "device/doorA_trigger", &[0xc3]), 0);
}

#[test]
fn the_name_in_the_topic_is_matched_whole() {
    let mut r = router(&["door1", "door10", "door"]);
    assert_eq!(
        mqtt_connection_task(&mut r, &Command::new("device/door10_trigger", b"fire")),
        Dispatch::Pulse { actuator: 1, hold_ms: 200 }
    );
    assert_eq!(r.release(), Some(1));
    assert_eq!(
        mqtt_connection_task(&mut r, &Command::new("device/door_trigger", b"fire")),
        Dispatch::Pulse { actuator: 2, hold_ms: 200 }
    );
    assert_eq!(r.release(), Some(2));
    assert_eq!(
        mqtt_connection_task(&mut r, &Command::new("device/door1_trigger", b"fire")),
        Dispatch::Pulse { actuator: 0, hold_ms: 200 }
    );
    assert_eq!(r.release(), Some(0));
    assert_eq!(pulses(&mut r, "device/door1_x_trigger", b"fire"), 0);
    assert_eq!(pulses(&mut r, "device/door100_trigger", b"fire"), 0);
}

#[test]
fn names_beyond_ascii_are_matched_too() {
    let mut r = router(&["tür", "porte"]);
    assert_eq!(
        mqtt_connection_task(&mut r, &Command::new("device/tür_trigger", b"fire")),
        Dispatch::Pulse { actuator: 0, hold_ms: 200 }
    );
    r.release();
    assert_eq!(pulses(&mut r, "device/tur_trigger", b"fire"), 0);
}

#[test]
fn the_router_is_busy_while_a_pulse_is_in_flight() {
    let mut r = router(&["door1", "door2"]);
    let first = Command::new("device/door1_trigger", b"fire");
    let second = Command::new("device/door2_trigger", b"fire");
    assert_eq!(mqtt_connection_task(&mut r, &first), Dispatch::Pulse { actuator: 0, hold_ms: 200 });
    // Neither a second trigger for the same actuator nor one for another
    // starts anything, and neither is lost: handed in again, it is served.
    assert_eq!(mqtt_connection_task(&mut r, &first), Dispatch::Busy { actuator: 0 });
    assert_eq!(mqtt_connection_task(&mut r, &second), Dispatch::Busy { actuator: 0 });
    assert!(!r.actuator(1).unwrap().is_pulsing());
    assert_eq!(r.release(), Some(0));
    assert_eq!(mqtt_connection_task(&mut r, &second), Dispatch::Pulse { actuator: 1, hold_ms: 200 });
    assert!(!r.actuator(0).unwrap().is_pulsing());
    assert!(r.actuator(1).unwrap().is_pulsing());
    assert_eq!(r.release(), Some(1));
    assert_eq!(r.release(), None);
}

#[test]
fn every_trigger_is_a_pulse_of_its_own() {
    let mut r = router(&["door1"]);
    let mut count = 0;
    for _ in 0..5 {
        count += pulses(&mut r, "device/door1_trigger", b"fire");
    }
    assert_eq!(count, 5);
}

#[test]
fn route_says_which_actuator_without_starting_anything() {
    let r = router(&["door1", "door2"]);
    assert_eq!(r.route(&Command::new("device/door2_trigger", b"fire")), Some(1));
    assert_eq!(r.route(&Command::new("device/door1_trigger", b"fire")), Some(0));
    assert_eq!(r.route(&Command::new("device/door3_trigger", b"fire")), None);
    assert_eq!(r.route(&Command::new("device/door1_trigger", b"stop")), None);
    assert_eq!(r.in_flight(), None);
}

#[test]
fn a_name_is_taken_once() {
    let mut r = router(&["door1"]);
    assert_eq!(r.add(actuator("door1")), Err(Rejected::NameTaken));
    assert_eq!(r.len(), 1);
    assert_eq!(r.add(actuator("door2")), Ok(1));
    assert_eq!(r.len(), 2);
    assert_eq!(r.actuator(1).unwrap().name(), "door2");
    assert!(r.actuator(2).is_none());
}

#[test]
fn an_actuator_in_mid_pulse_is_turned_away() {
    let mut r = Router::new();
    let mut a = actuator("door1");
    a.toggle();
    assert_eq!(r.add(a), Err(Rejected::PulseInFlight));
    assert_eq!(r.len(), 0);
    // A taken name is said first.
    let mut r = router(&["door1"]);
    let mut b = actuator("door1");
    b.toggle();
    assert_eq!(r.add(b), Err(Rejected::NameTaken));
}

#[test]
fn an_empty_router_discards_everything() {
    let mut r = Router::new();
    assert_eq!(r.len(), 0);
    assert_eq!(pulses(&mut r, "device/door1_trigger", b"fire"), 0);
    assert_eq!(r.release(), None);
    assert!(r.actuator(0).is_none());
    assert!(r.trigger_topic(0).is_none());
}

#[test]
fn topics_are_spelled_in_the_device_namespace() {
    assert_eq!(device_topic("door1"), "device/door1");
    assert_eq!(device_topic(""), "device/");
    let r = router(&["door1", "side"]);
    assert_eq!(r.trigger_topic(0), Some("device/door1_trigger"));
    assert_eq!(r.trigger_topic(1), Some("device/side_trigger"));
    assert_eq!(r.trigger_topic(2), None);
}

#[test]
fn a_command_keeps_what_it_was_given() {
    let c = Command::new("device/x", &[1, 2, 3]);
    assert_eq!(c.topic(), "device/x");
    assert_eq!(c.payload(), &[1, 2, 3]);
}
