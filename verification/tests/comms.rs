use overlord_bus::comms::BusMessage;
use overlord_bus::error::Error;
use overlord_bus::settings::Settings;

#[test]
fn payload_round_trips() {
    let m = BusMessage::new("alpha".to_string(), "greet".to_string(), "hello there");
    assert_eq!(m.target, "alpha");
    assert_eq!(m.kind, "greet");
    assert_eq!(m.payload(), Some("hello there".to_string()));
}

#[test]
fn empty_payload_round_trips() {
    let m = BusMessage::new("beta".to_string(), "noop".to_string(), "");
    assert_eq!(m.payload(), Some(String::new()));
}

#[test]
fn payload_is_really_encoded() {
    let m = BusMessage::new("gamma".to_string(), "quote".to_string(), "a \"quoted\" text");
    assert_ne!(m.json_payload, "a \"quoted\" text");
    assert_eq!(m.payload(), Some("a \"quoted\" text".to_string()));
}

#[test]
fn garbage_payload_decodes_to_none() {
    let m = BusMessage {
        target: "delta".to_string(),
        kind: "odd".to_string(),
        json_payload: "not json at all".to_string(),
    };
    assert_eq!(m.payload(), None);
}

#[test]
fn shutdown_all_shape() {
    let m = BusMessage::shutdown_all();
    assert_eq!(m.target, "all");
    assert_eq!(m.kind, "shutdown");
    assert_eq!(m.payload(), Some(String::new()));
}

#[test]
fn exit_report_shape() {
    let m = BusMessage::exit_report("wss://relay.example");
    assert_eq!(m.target, "overlord");
    assert_eq!(m.kind, "minion_is_done");
    assert_eq!(m.payload(), Some("wss://relay.example".to_string()));
}

#[test]
fn clone_keeps_fields() {
    let m = BusMessage::new("epsilon".to_string(), "kind".to_string(), "p");
    let c = m.clone();
    assert_eq!(c.target, m.target);
    assert_eq!(c.kind, m.kind);
    assert_eq!(c.json_payload, m.json_payload);
}

#[test]
fn error_describes_itself() {
    assert_eq!(Error::RecipientGone.describe(), "recipient gone; message dropped");
}

#[test]
fn settings_default_snapshot() {
    let s = Settings::default();
    assert_eq!(s.feed_chunk, 43200);
    assert_eq!(s.overlap, 600);
    assert!(!s.autofollow);
}
