use rtspy::signaling::{
    client_action, error_message, ice_message, offer_message, read_client_message, signal_action,
    signal_json, ClientAction, ClientMessage, SignalMessage,
};

fn serde_object(pairs: Vec<(&str, serde_json::Value)>) -> String {
    let mut m = serde_json::Map::new();
    for (k, v) in pairs {
        m.insert(k.to_string(), v);
    }
    serde_json::Value::Object(m).to_string()
}

fn action(text: &str) -> ClientAction {
    match read_client_message(text) {
        Some(m) => client_action(&m),
        None => ClientAction::Ignore,
    }
}

#[test]
fn ice_message_exact_text() {
    assert_eq!(
        ice_message(0, "candidate:1 1 UDP 2122252543 192.168.1.2 50000 typ host"),
        "{\"candidate\":\"candidate:1 1 UDP 2122252543 192.168.1.2 50000 typ host\",\"mlineIndex\":0,\"type\":\"ice\"}"
    );
}

#[test]
fn ice_message_matches_serde_json_object_text() {
    let cand = "a \"quoted\" \\ back\nslash\u{1}";
    let expected = serde_object(vec![
        ("type", serde_json::Value::String("ice".to_string())),
        ("mlineIndex", serde_json::Value::from(7u32)),
        ("candidate", serde_json::Value::String(cand.to_string())),
    ]);
    assert_eq!(ice_message(7, cand), expected);
}

#[test]
fn offer_and_error_messages_match_serde_json_object_text() {
    let sdp = "v=0\r\no=- 1 2 IN IP4 127.0.0.1\r\n";
    assert_eq!(
        offer_message(sdp),
        serde_object(vec![
            ("type", serde_json::Value::String("offer".to_string())),
            ("sdp", serde_json::Value::String(sdp.to_string())),
        ])
    );
    assert_eq!(offer_message("x"), "{\"sdp\":\"x\",\"type\":\"offer\"}");
    assert_eq!(error_message("boom"), "{\"message\":\"boom\",\"type\":\"error\"}");
    assert_eq!(
        error_message("a\tb"),
        serde_object(vec![
            ("type", serde_json::Value::String("error".to_string())),
            ("message", serde_json::Value::String("a\tb".to_string())),
        ])
    );
}

#[test]
fn answer_from_browser_is_applied() {
    match action("{\"type\":\"answer\",\"sdp\":\"v=0\\r\\n\"}") {
        ClientAction::ApplyAnswer(s) => assert_eq!(s, "v=0\r\n"),
        _ => panic!("expected an answer"),
    }
}

#[test]
fn ice_from_browser_is_added() {
    match action("{\"type\":\"ice\",\"mlineIndex\":1,\"candidate\":\"cand\"}") {
        ClientAction::AddIce(m, c) => {
            assert_eq!(m, 1);
            assert_eq!(c, "cand");
        }
        _ => panic!("expected a candidate"),
    }
}

#[test]
fn ice_index_is_cut_to_32_bits() {
    match action("{\"type\":\"ice\",\"mlineIndex\":4294967297,\"candidate\":\"c\"}") {
        ClientAction::AddIce(m, _) => assert_eq!(m, 1),
        _ => panic!("expected a candidate"),
    }
}

#[test]
fn incomplete_or_unknown_messages_are_ignored() {
    for text in [
        "{\"type\":\"answer\"}",
        "{\"type\":\"answer\",\"sdp\":5}",
        "{\"type\":\"ice\",\"candidate\":\"c\"}",
        "{\"type\":\"ice\",\"mlineIndex\":-1,\"candidate\":\"c\"}",
        "{\"type\":\"ice\",\"mlineIndex\":1.5,\"candidate\":\"c\"}",
        "{\"type\":\"offer\",\"sdp\":\"x\"}",
        "{\"type\":\"Answer\",\"sdp\":\"x\"}",
        "[1,2]",
        "\"answer\"",
    ] {
        assert!(matches!(action(text), ClientAction::Ignore), "{}", text);
    }
}

#[test]
fn text_that_is_no_json_is_not_read() {
    assert!(read_client_message("not json").is_none());
    assert!(read_client_message("{\"type\":").is_none());
    assert!(read_client_message("").is_none());
}

#[test]
fn read_client_message_reads_members() {
    let m = read_client_message("{\"type\":\"ice\",\"mlineIndex\":3,\"candidate\":\"c\",\"sdp\":\"s\"}").unwrap();
    assert_eq!(m.kind.as_deref(), Some("ice"));
    assert_eq!(m.mline_index, Some(3));
    assert_eq!(m.candidate.as_deref(), Some("c"));
    assert_eq!(m.sdp.as_deref(), Some("s"));
}

#[test]
fn client_action_on_plain_values() {
    let m = ClientMessage {
        kind: Some("answer".to_string()),
        sdp: Some("v=0".to_string()),
        mline_index: Some(2),
        candidate: Some("c".to_string()),
    };
    assert!(matches!(client_action(&m), ClientAction::ApplyAnswer(s) if s == "v=0"));
    let m = ClientMessage { kind: Some("ice".to_string()), sdp: None, mline_index: Some(2), candidate: Some("c".to_string()) };
    assert!(matches!(client_action(&m), ClientAction::AddIce(2, c) if c == "c"));
    let m = ClientMessage { kind: None, sdp: Some("v=0".to_string()), mline_index: None, candidate: None };
    assert!(matches!(client_action(&m), ClientAction::Ignore));
}

#[test]
fn typed_signal_messages_as_json() {
    assert_eq!(
        signal_json(&SignalMessage::Offer { sdp: "v=0".to_string() }),
        "{\"type\":\"Offer\",\"sdp\":\"v=0\"}"
    );
    assert_eq!(
        signal_json(&SignalMessage::Answer { sdp: "a\"b".to_string() }),
        "{\"type\":\"Answer\",\"sdp\":\"a\\\"b\"}"
    );
    assert_eq!(
        signal_json(&SignalMessage::Ice { candidate: "cand".to_string(), sdp_mline_index: 12 }),
        "{\"type\":\"Ice\",\"candidate\":\"cand\",\"sdpMLineIndex\":12}"
    );
}

#[test]
fn typed_signal_actions() {
    let a = signal_action(&Some(SignalMessage::Answer { sdp: "s".to_string() }));
    assert!(matches!(a, ClientAction::ApplyAnswer(s) if s == "s"));
    let a = signal_action(&Some(SignalMessage::Ice { candidate: "c".to_string(), sdp_mline_index: 4 }));
    assert!(matches!(a, ClientAction::AddIce(4, c) if c == "c"));
    assert!(matches!(signal_action(&Some(SignalMessage::Offer { sdp: "s".to_string() })), ClientAction::Ignore));
    assert!(matches!(signal_action(&None), ClientAction::Ignore));
}

#[test]
fn control_characters_are_escaped_as_serde_json_does() {
    let all: String = (0u32..0x80).filter_map(char::from_u32).collect();
    assert_eq!(offer_message(&all), serde_object(vec![
        ("type", serde_json::Value::String("offer".to_string())),
        ("sdp", serde_json::Value::String(all.clone())),
    ]));
    assert_eq!(
        error_message("\u{1f}\u{8}\u{c}\"\\é"),
        "{\"message\":\"\\u001f\\b\\f\\\"\\\\é\",\"type\":\"error\"}"
    );
}
