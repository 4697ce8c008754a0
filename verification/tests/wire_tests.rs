use evertext_runner::wire::{
    FrameKind, classify_frame, event_frame_output_text, input_frame, namespace_connect_frame,
    parse_handshake, pong_frame, start_frame, stop_frame,
};

#[test]
fn frames_are_classified() {
    assert_eq!(classify_frame("2"), FrameKind::Ping);
    assert_eq!(classify_frame("40"), FrameKind::NamespaceAck);
    assert_eq!(classify_frame("40{\"sid\":\"x\"}"), FrameKind::NamespaceAck);
    assert_eq!(classify_frame("42[\"output\",{}]"), FrameKind::Event);
    assert_eq!(classify_frame("3"), FrameKind::Other);
    assert_eq!(classify_frame(""), FrameKind::Other);
    assert_eq!(classify_frame("20"), FrameKind::Other);
}

#[test]
fn fixed_frames_read_as_expected() {
    assert_eq!(pong_frame(), "3");
    assert_eq!(namespace_connect_frame(), "40");
    assert_eq!(stop_frame(), "42[\"stop\",{}]");
    assert_eq!(start_frame(), "42[\"start\",{\"args\":\"\"}]");
}

#[test]
fn input_frame_wraps_plain_command() {
    assert_eq!(input_frame("d"), "42[\"input\",{\"input\":\"d\"}]");
    assert_eq!(input_frame("auto"), "42[\"input\",{\"input\":\"auto\"}]");
}

fn serde_built_input_frame(cmd: &str) -> String {
    let mut obj = serde_json::Map::new();
    obj.insert(
        "input".to_string(),
        serde_json::Value::String(cmd.to_string()),
    );
    let arr = serde_json::Value::Array(vec![
        serde_json::Value::String("input".to_string()),
        serde_json::Value::Object(obj),
    ]);
    format!("42{}", serde_json::to_string(&arr).unwrap())
}

#[test]
fn input_frame_escapes_like_the_json_library() {
    for cmd in [
        "plain",
        "with \"quotes\"",
        "back\\slash",
        "line\nbreak",
        "tab\tand\rreturn",
        "control\u{1}\u{8}\u{c}\u{1f}chars",
        "unicode ößé₤",
        "",
    ] {
        assert_eq!(input_frame(cmd), serde_built_input_frame(cmd), "command {:?}", cmd);
    }
}

#[test]
fn handshake_reads_sid_and_interval() {
    let h = parse_handshake("0{\"sid\":\"abc123\",\"pingInterval\":30000}").unwrap();
    assert_eq!(h.sid, "abc123");
    assert_eq!(h.ping_interval, 30000);
}

#[test]
fn handshake_interval_defaults_when_absent() {
    let h = parse_handshake("0{\"sid\":\"abc123\"}").unwrap();
    assert_eq!(h.sid, "abc123");
    assert_eq!(h.ping_interval, 25000);
}

#[test]
fn handshake_rejects_wrong_first_frame() {
    assert!(parse_handshake("40").is_none());
    assert!(parse_handshake("").is_none());
    assert!(parse_handshake("2").is_none());
    assert!(parse_handshake("0 not json").is_none());
    assert!(parse_handshake("0{\"pingInterval\":30000}").is_none());
}

#[test]
fn event_frame_output_text_reads_output_events() {
    assert_eq!(
        event_frame_output_text("42[\"output\",{\"data\":\"hello there\"}]").as_deref(),
        Some("hello there")
    );
    assert_eq!(
        event_frame_output_text("42[\"status\",{\"data\":\"hello\"}]"),
        None
    );
    assert_eq!(event_frame_output_text("42[\"output\",{}]"), None);
    assert_eq!(event_frame_output_text("42[\"output\"]"), None);
    assert_eq!(event_frame_output_text("42 not json"), None);
}
