use garage_door_v2::actuator::Actuator;
use garage_door_v2::line::{InputLine, OutputLine};
use garage_door_v2::mqtt::{mqtt_connection_task, Command, Dispatch, Router};
use garage_door_v2::pace::Wait;
use garage_door_v2::sensor::{sensor_monitoring_task, DoorState, Monitor, MonitorAction, Sensor};
use garage_door_v2::wifi::{
    connection, wait_for_connection, ConnectivityState, LinkAction, LinkEvent, RadioStatus,
    Supervisor,
};

#[test]
fn boot_report_flip_report_trigger_pulse() {
    // The network comes up.
    let mut sup = Supervisor::new();
    let cold = RadioStatus { associated: false, started: false };
    let down = RadioStatus { associated: false, started: true };
    let up = RadioStatus { associated: true, started: true };
    assert_eq!(connection(&mut sup, cold, LinkEvent::Boot), LinkAction::StartRadio);
    assert_eq!(connection(&mut sup, down, LinkEvent::RadioStarted), LinkAction::Associate);
    assert_eq!(connection(&mut sup, up, LinkEvent::Associated), LinkAction::AwaitLinkLoss);
    assert_eq!(wait_for_connection(&mut sup, true, true), Wait::Ready);
    assert!(sup.session_opened());
    assert_eq!(sup.state(), ConnectivityState::BusConnected);

    // Boot with the sensor line high: within one debounce window the door
    // is reported open.
    let mut monitor = Monitor::new(Sensor::new(InputLine::pull_up(), "door1"));
    assert_eq!(sensor_monitoring_task(&mut monitor, true), MonitorAction::Sleep(50));
    let first = sensor_monitoring_task(&mut monitor, true);
    assert_eq!(first, MonitorAction::Publish(DoorState::Open));
    let report = monitor.sensor().publication(DoorState::Open);
    assert_eq!((report.topic(), report.payload(), report.retain()), ("device/door1", "open", true));

    // The line flips to low: after the debounce window the door is
    // reported closed.
    assert_eq!(sensor_monitoring_task(&mut monitor, true), MonitorAction::Sleep(50));
    assert_eq!(sensor_monitoring_task(&mut monitor, false), MonitorAction::Sleep(50));
    let second = sensor_monitoring_task(&mut monitor, false);
    assert_eq!(second, MonitorAction::Publish(DoorState::Closed));
    let report = monitor.sensor().publication(DoorState::Closed);
    assert_eq!(
        (report.topic(), report.payload(), report.retain()),
        ("device/door1", "closed", true)
    );

    // A trigger arrives: the output line of door1 goes high, and low again
    // when the pulse is over.
    let mut router = Router::new();
    assert_eq!(router.add(Actuator::new(OutputLine::new(), "door1")), Ok(0));
    assert!(!router.actuator(0).unwrap().line().is_set_high());
    let trigger = Command::new("device/door1_trigger", b"fire");
    assert_eq!(
        mqtt_connection_task(&mut router, &trigger),
        Dispatch::Pulse { actuator: 0, hold_ms: 200 }
    );
    assert!(router.actuator(0).unwrap().line().is_set_high());
    assert_eq!(router.release(), Some(0));
    assert!(!router.actuator(0).unwrap().line().is_set_high());

    // The report of the door itself is no trigger.
    let echo = Command::new("device/door1", b"closed");
    assert_eq!(mqtt_connection_task(&mut router, &echo), Dispatch::Discard);
}
