use overlord_bus::comms::BusMessage;
use overlord_bus::minion::{Minion, MinionPhase};

#[test]
fn shutdown_broadcast_finishes_with_one_report() {
    let (tx, mut rx) = tokio::sync::mpsc::unbounded_channel::<BusMessage>();
    let mut m = Minion::new("wss://relay.one".to_string(), tx);
    assert_eq!(m.current_phase(), MinionPhase::Working);
    let done = m.on_command(&BusMessage::shutdown_all());
    assert!(done);
    assert_eq!(m.current_phase(), MinionPhase::Done);
    let report = rx.try_recv().expect("exactly one final report");
    assert_eq!(report.target, "overlord");
    assert_eq!(report.kind, "minion_is_done");
    assert_eq!(report.payload(), Some("wss://relay.one".to_string()));
    assert!(rx.try_recv().is_err());
}

#[test]
fn shutdown_addressed_to_this_minion_finishes_it() {
    let (tx, mut rx) = tokio::sync::mpsc::unbounded_channel::<BusMessage>();
    let mut m = Minion::new("me".to_string(), tx);
    let order = BusMessage::new("me".to_string(), "shutdown".to_string(), "");
    assert!(m.on_command(&order));
    assert_eq!(rx.try_recv().expect("final report").payload(), Some("me".to_string()));
}

#[test]
fn shutdown_for_someone_else_is_not_taken() {
    let (tx, mut rx) = tokio::sync::mpsc::unbounded_channel::<BusMessage>();
    let mut m = Minion::new("me".to_string(), tx);
    let order = BusMessage::new("other".to_string(), "shutdown".to_string(), "");
    assert!(!m.on_command(&order));
    assert_eq!(m.current_phase(), MinionPhase::Working);
    assert!(rx.try_recv().is_err());
}

#[test]
fn ordinary_instruction_leaves_the_minion_working() {
    let (tx, mut rx) = tokio::sync::mpsc::unbounded_channel::<BusMessage>();
    let mut m = Minion::new("me".to_string(), tx);
    let work = BusMessage::new("me".to_string(), "fetch".to_string(), "since=0");
    assert!(!m.on_command(&work));
    assert!(rx.try_recv().is_err());
}

#[test]
fn graceful_completion_also_reports() {
    let (tx, mut rx) = tokio::sync::mpsc::unbounded_channel::<BusMessage>();
    let mut m = Minion::new("closing".to_string(), tx);
    m.complete();
    let report = rx.try_recv().expect("final report");
    assert_eq!(report.kind, "minion_is_done");
    assert_eq!(report.payload(), Some("closing".to_string()));
    assert!(rx.try_recv().is_err());
}

#[test]
fn report_goes_out_even_if_overlord_is_gone() {
    let (tx, rx) = tokio::sync::mpsc::unbounded_channel::<BusMessage>();
    drop(rx);
    let mut m = Minion::new("late".to_string(), tx);
    // The send fails silently; the minion still finishes cleanly.
    assert!(m.on_command(&BusMessage::shutdown_all()));
    assert_eq!(m.current_phase(), MinionPhase::Done);
}
