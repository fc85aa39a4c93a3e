use garage_door_v2::pace::Wait;
use garage_door_v2::wifi::{
    connection, wait_for_connection, ConnectivityState, LinkAction, LinkEvent, LinkPhase,
    RadioStatus, Supervisor, BACKOFF_MS, LINK_POLL_MS,
};

const COLD: RadioStatus = RadioStatus { associated: false, started: false };
const DOWN: RadioStatus = RadioStatus { associated: false, started: true };
const UP: RadioStatus = RadioStatus { associated: true, started: true };

#[test]
fn the_delays_are_fixed() {
    assert_eq!(LINK_POLL_MS, 500);
    assert_eq!(BACKOFF_MS, 5000);
}

#[test]
fn a_new_supervisor_is_disconnected_and_idle() {
    let sup = Supervisor::new();
    assert_eq!(sup.state(), ConnectivityState::Disconnected);
    assert_eq!(sup.phase(), LinkPhase::Idle);
}

#[test]
fn a_cold_radio_is_started_and_then_associates() {
    let mut sup = Supervisor::new();
    assert_eq!(connection(&mut sup, COLD, LinkEvent::Boot), LinkAction::StartRadio);
    assert_eq!(sup.phase(), LinkPhase::StartingRadio);
    assert_eq!(connection(&mut sup, DOWN, LinkEvent::RadioStarted), LinkAction::Associate);
    assert_eq!(sup.phase(), LinkPhase::Associating);
    assert_eq!(connection(&mut sup, UP, LinkEvent::Associated), LinkAction::AwaitLinkLoss);
    assert_eq!(sup.phase(), LinkPhase::AwaitingLinkLoss);
    assert_eq!(sup.state(), ConnectivityState::Disconnected);
}

#[test]
fn a_started_radio_associates_at_boot() {
    let mut sup = Supervisor::new();
    assert_eq!(connection(&mut sup, DOWN, LinkEvent::Boot), LinkAction::Associate);
}

#[test]
fn an_associated_station_is_left_alone_at_boot() {
    let mut sup = Supervisor::new();
    assert_eq!(connection(&mut sup, UP, LinkEvent::Boot), LinkAction::AwaitLinkLoss);
    let odd = RadioStatus { associated: true, started: false };
    let mut sup = Supervisor::new();
    assert_eq!(connection(&mut sup, odd, LinkEvent::Boot), LinkAction::AwaitLinkLoss);
}

#[test]
fn a_failed_association_backs_off_and_tries_again() {
    let mut sup = Supervisor::new();
    connection(&mut sup, DOWN, LinkEvent::Boot);
    let mut backed_off: u64 = 0;
    for _ in 0..7 {
        match connection(&mut sup, DOWN, LinkEvent::AssociationFailed) {
            LinkAction::Backoff(ms) => backed_off += ms,
            other => panic!("{:?}", other),
        }
        assert_eq!(sup.phase(), LinkPhase::BackoffAfterFailure);
        assert_eq!(sup.state(), ConnectivityState::Disconnected);
        assert_eq!(connection(&mut sup, DOWN, LinkEvent::BackoffElapsed), LinkAction::Associate);
    }
    assert_eq!(backed_off, 7 * 5000);
    assert_eq!(connection(&mut sup, UP, LinkEvent::Associated), LinkAction::AwaitLinkLoss);
}

#[test]
fn after_a_failure_an_associated_station_is_left_alone() {
    let mut sup = Supervisor::new();
    connection(&mut sup, DOWN, LinkEvent::Boot);
    connection(&mut sup, DOWN, LinkEvent::AssociationFailed);
    assert_eq!(connection(&mut sup, UP, LinkEvent::BackoffElapsed), LinkAction::AwaitLinkLoss);
}

#[test]
fn after_a_lost_link_the_loop_reconnects_without_looking() {
    let mut sup = Supervisor::new();
    connection(&mut sup, UP, LinkEvent::Boot);
    assert_eq!(connection(&mut sup, DOWN, LinkEvent::LinkLost), LinkAction::Backoff(5000));
    assert_eq!(sup.phase(), LinkPhase::BackoffAfterLoss);
    // Even a station that reports itself associated is connected anew.
    assert_eq!(connection(&mut sup, UP, LinkEvent::BackoffElapsed), LinkAction::Associate);
    let mut sup = Supervisor::new();
    connection(&mut sup, UP, LinkEvent::Boot);
    connection(&mut sup, DOWN, LinkEvent::LinkLost);
    assert_eq!(connection(&mut sup, COLD, LinkEvent::BackoffElapsed), LinkAction::StartRadio);
}

#[test]
fn an_association_that_does_not_hold_is_tried_again() {
    let mut sup = Supervisor::new();
    connection(&mut sup, DOWN, LinkEvent::Boot);
    assert_eq!(connection(&mut sup, DOWN, LinkEvent::Associated), LinkAction::Associate);
}

#[test]
fn the_link_is_polled_and_then_the_address() {
    let mut sup = Supervisor::new();
    assert_eq!(wait_for_connection(&mut sup, false, false), Wait::Sleep(500));
    assert_eq!(sup.state(), ConnectivityState::Disconnected);
    // An address counts for nothing while the link is down.
    assert_eq!(wait_for_connection(&mut sup, false, true), Wait::Sleep(500));
    assert_eq!(sup.state(), ConnectivityState::Disconnected);
    assert_eq!(wait_for_connection(&mut sup, true, false), Wait::Sleep(500));
    assert_eq!(sup.state(), ConnectivityState::LinkUp);
    // Once the link was seen up it is not looked at again.
    assert_eq!(wait_for_connection(&mut sup, false, false), Wait::Sleep(500));
    assert_eq!(sup.state(), ConnectivityState::LinkUp);
    assert_eq!(wait_for_connection(&mut sup, false, true), Wait::Ready);
    assert_eq!(sup.state(), ConnectivityState::AddressAcquired);
    assert_eq!(wait_for_connection(&mut sup, false, false), Wait::Ready);
    assert_eq!(sup.state(), ConnectivityState::AddressAcquired);
}

#[test]
fn link_and_address_at_once_are_taken_at_once() {
    let mut sup = Supervisor::new();
    assert_eq!(wait_for_connection(&mut sup, true, true), Wait::Ready);
    assert_eq!(sup.state(), ConnectivityState::AddressAcquired);
}

#[test]
fn the_session_counts_only_with_an_address() {
    let mut sup = Supervisor::new();
    assert!(!sup.session_opened());
    assert_eq!(sup.state(), ConnectivityState::Disconnected);
    wait_for_connection(&mut sup, true, false);
    assert!(!sup.session_opened());
    assert_eq!(sup.state(), ConnectivityState::LinkUp);
    wait_for_connection(&mut sup, true, true);
    assert!(sup.session_opened());
    assert_eq!(sup.state(), ConnectivityState::BusConnected);
    assert!(sup.session_opened());
    assert_eq!(wait_for_connection(&mut sup, false, false), Wait::Ready);
    assert_eq!(sup.state(), ConnectivityState::BusConnected);
}

// Brings a supervisor that is about to associate up to the bus, with the
// given number of failed associations on the way, and returns the backoff
// it asked for.
fn come_up(sup: &mut Supervisor, failures: usize) -> u64 {
    let mut backed_off: u64 = 0;
    for _ in 0..failures {
        if let LinkAction::Backoff(ms) = connection(sup, DOWN, LinkEvent::AssociationFailed) {
            backed_off += ms;
        }
        assert_eq!(connection(sup, DOWN, LinkEvent::BackoffElapsed), LinkAction::Associate);
    }
    assert_eq!(connection(sup, UP, LinkEvent::Associated), LinkAction::AwaitLinkLoss);
    assert_eq!(wait_for_connection(sup, false, false), Wait::Sleep(500));
    assert_eq!(wait_for_connection(sup, true, false), Wait::Sleep(500));
    assert_eq!(wait_for_connection(sup, true, true), Wait::Ready);
    assert!(sup.session_opened());
    backed_off
}

#[test]
fn the_bus_is_reached_after_finitely_many_retries() {
    for failures in [0usize, 1, 2, 10, 100] {
        let mut sup = Supervisor::new();
        assert_eq!(connection(&mut sup, COLD, LinkEvent::Boot), LinkAction::StartRadio);
        assert_eq!(connection(&mut sup, DOWN, LinkEvent::RadioStarted), LinkAction::Associate);
        assert_eq!(come_up(&mut sup, failures), failures as u64 * 5000);
        assert_eq!(sup.state(), ConnectivityState::BusConnected);
        assert_eq!(sup.phase(), LinkPhase::AwaitingLinkLoss);
    }
}

#[test]
fn a_dropped_link_is_recovered_from() {
    let mut sup = Supervisor::new();
    connection(&mut sup, COLD, LinkEvent::Boot);
    connection(&mut sup, DOWN, LinkEvent::RadioStarted);
    come_up(&mut sup, 0);
    for failures in [0usize, 3] {
        assert_eq!(sup.state(), ConnectivityState::BusConnected);
        assert_eq!(connection(&mut sup, DOWN, LinkEvent::LinkLost), LinkAction::Backoff(5000));
        assert_eq!(sup.state(), ConnectivityState::Disconnected);
        assert_eq!(wait_for_connection(&mut sup, false, false), Wait::Sleep(500));
        assert_eq!(connection(&mut sup, DOWN, LinkEvent::BackoffElapsed), LinkAction::Associate);
        assert_eq!(come_up(&mut sup, failures), failures as u64 * 5000);
        assert_eq!(sup.state(), ConnectivityState::BusConnected);
    }
}

#[test]
fn only_loss_and_failure_move_the_state_back() {
    let events = [
        LinkEvent::Boot,
        LinkEvent::RadioStarted,
        LinkEvent::Associated,
        LinkEvent::BackoffElapsed,
    ];
    for event in events {
        for status in [COLD, DOWN, UP] {
            let mut sup = Supervisor::new();
            wait_for_connection(&mut sup, true, true);
            sup.session_opened();
            connection(&mut sup, status, event);
            assert_eq!(sup.state(), ConnectivityState::BusConnected);
        }
    }
    for event in [LinkEvent::LinkLost, LinkEvent::AssociationFailed] {
        let mut sup = Supervisor::new();
        wait_for_connection(&mut sup, true, true);
        sup.session_opened();
        assert_eq!(connection(&mut sup, UP, event), LinkAction::Backoff(5000));
        assert_eq!(sup.state(), ConnectivityState::Disconnected);
    }
}
