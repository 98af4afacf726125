use overlord_bus::comms::BusMessage;
use overlord_bus::overlord::{Action, Overlord, OverlordState};

#[test]
fn zero_minions_shutdown_reaches_stopped() {
    let mut o = Overlord::new();
    assert_eq!(o.current_state(), OverlordState::Starting);
    o.start();
    assert_eq!(o.current_state(), OverlordState::Running);
    let a = o.handle_message(&BusMessage::shutdown_all());
    assert_eq!(a, Action::ShutdownInitiated);
    assert_eq!(o.current_state(), OverlordState::Draining);
    let forced = o.finish_drain();
    assert_eq!(forced, 0);
    assert_eq!(o.current_state(), OverlordState::Stopped);
    assert_eq!(o.minion_count(), 0);
}

#[test]
fn three_minions_report_and_count_drops_to_zero() {
    let mut o = Overlord::new();
    o.start();
    let _rx_a = o.spawn_minion("a".to_string());
    let _rx_b = o.spawn_minion("b".to_string());
    let _rx_c = o.spawn_minion("c".to_string());
    assert_eq!(o.minion_count(), 3);
    assert!(o.is_tracked("b"));
    for id in ["a", "b", "c"] {
        let a = o.handle_message(&BusMessage::exit_report(id));
        assert_eq!(a, Action::MinionExited);
    }
    assert_eq!(o.minion_count(), 0);
    assert!(!o.is_tracked("a"));
    assert_eq!(o.current_state(), OverlordState::Running);
}

#[test]
fn unresponsive_minion_is_forcibly_cancelled() {
    let mut o = Overlord::new();
    o.start();
    let mut rx = o.spawn_minion("stuck".to_string());
    let a = o.handle_message(&BusMessage::shutdown_all());
    assert_eq!(a, Action::ShutdownInitiated);
    // The shutdown instruction reached the minion; it just never answers.
    let got = rx.try_recv().expect("shutdown instruction was broadcast");
    assert_eq!(got.kind, "shutdown");
    assert_eq!(o.current_state(), OverlordState::Draining);
    let forced = o.finish_drain();
    assert_eq!(forced, 1);
    assert_eq!(o.current_state(), OverlordState::Stopped);
    assert_eq!(o.minion_count(), 0);
}

#[test]
fn unknown_target_is_dropped_not_fatal() {
    let mut o = Overlord::new();
    o.start();
    let _rx = o.spawn_minion("known".to_string());
    let stray = BusMessage::new("nobody".to_string(), "hello".to_string(), "");
    let a = o.handle_message(&stray);
    assert_eq!(a, Action::DroppedUnknown);
    assert_eq!(o.current_state(), OverlordState::Running);
    assert_eq!(o.minion_count(), 1);
    // The dispatch loop is still live: the next message is handled normally.
    let a2 = o.handle_message(&BusMessage::exit_report("known"));
    assert_eq!(a2, Action::MinionExited);
}

#[test]
fn forwarding_reaches_the_addressed_minion() {
    let mut o = Overlord::new();
    o.start();
    let mut rx = o.spawn_minion("alpha".to_string());
    let m = BusMessage::new("alpha".to_string(), "fetch".to_string(), "since=now");
    let a = o.handle_message(&m);
    assert_eq!(a, Action::Forwarded);
    let got = rx.try_recv().expect("the message was forwarded");
    assert_eq!(got.target, "alpha");
    assert_eq!(got.kind, "fetch");
    assert_eq!(got.payload(), Some("since=now".to_string()));
}

#[test]
fn broadcast_reaches_every_minion() {
    let mut o = Overlord::new();
    o.start();
    let mut rx1 = o.spawn_minion("one".to_string());
    let mut rx2 = o.spawn_minion("two".to_string());
    let m = BusMessage::new("all".to_string(), "ping".to_string(), "");
    let a = o.handle_message(&m);
    assert_eq!(a, Action::Broadcast);
    assert_eq!(rx1.try_recv().expect("first minion got it").kind, "ping");
    assert_eq!(rx2.try_recv().expect("second minion got it").kind, "ping");
}

#[test]
fn exit_report_for_unknown_minion_is_dropped() {
    let mut o = Overlord::new();
    o.start();
    let a = o.handle_message(&BusMessage::exit_report("ghost"));
    assert_eq!(a, Action::DroppedUnknown);
    assert_eq!(o.current_state(), OverlordState::Running);
}

#[test]
fn malformed_exit_report_is_unrecognized() {
    let mut o = Overlord::new();
    o.start();
    let m = BusMessage {
        target: "overlord".to_string(),
        kind: "minion_is_done".to_string(),
        json_payload: "{{{".to_string(),
    };
    let a = o.handle_message(&m);
    assert_eq!(a, Action::Unrecognized);
    assert_eq!(o.current_state(), OverlordState::Running);
}

#[test]
fn messages_while_draining_are_ignored() {
    let mut o = Overlord::new();
    o.start();
    let _rx = o.spawn_minion("slow".to_string());
    o.handle_message(&BusMessage::shutdown_all());
    assert_eq!(o.current_state(), OverlordState::Draining);
    let m = BusMessage::new("slow".to_string(), "fetch".to_string(), "");
    assert_eq!(o.handle_message(&m), Action::Ignored);
    // A second shutdown while draining changes nothing either.
    assert_eq!(o.handle_message(&BusMessage::shutdown_all()), Action::Ignored);
    // But an exit report is still taken during the drain.
    assert_eq!(o.handle_message(&BusMessage::exit_report("slow")), Action::MinionExited);
    assert_eq!(o.minion_count(), 0);
}

#[test]
fn unrecognized_kind_for_overlord_is_surfaced() {
    let mut o = Overlord::new();
    o.start();
    let m = BusMessage::new("overlord".to_string(), "dance".to_string(), "");
    assert_eq!(o.handle_message(&m), Action::Unrecognized);
}
