use eremote::auth::hash_password;
use eremote::json_protocol::{JsonMessage, JsonValue};
use eremote::protocol::{ConnectRequest, Envelope, Payload, Ping, RegisterHost, SdpAnswer, SdpOffer};
use eremote::relay::{relay_message, OutFrame, Outgoing, RelayError};
use eremote::server::{
    handle_json_message, handle_json_message_at, handle_proto_payload, handle_proto_payload_at,
    idle_action, idle_frames, on_disconnect, receive_binary, receive_text, Connection, IdleAction,
};
use eremote::session_registry::SessionRegistry;

fn json(t: &str, fields: &[(&str, JsonValue)]) -> JsonMessage {
    JsonMessage {
        msg_type: t.to_string(),
        payload: fields.iter().map(|(k, v)| (k.to_string(), clone_value(v))).collect(),
    }
}

fn clone_value(v: &JsonValue) -> JsonValue {
    match v {
        JsonValue::Null => JsonValue::Null,
        JsonValue::Bool(b) => JsonValue::Bool(*b),
        JsonValue::Str(s) => JsonValue::Str(s.clone()),
        JsonValue::PosInt(n) => JsonValue::PosInt(*n),
        JsonValue::NegInt(n) => JsonValue::NegInt(*n),
        JsonValue::Float => JsonValue::Float,
        JsonValue::Array => JsonValue::Array,
        JsonValue::Object => JsonValue::Object,
    }
}

fn s(v: &str) -> JsonValue {
    JsonValue::Str(v.to_string())
}

fn json_text(o: &Outgoing) -> &str {
    match &o.frame {
        OutFrame::Json(t) => t.as_str(),
        OutFrame::Proto(_) => panic!("expected JSON"),
    }
}

fn register_host(reg: &mut SessionRegistry, host_conn: u64, id: &str, password: &str) -> Connection {
    let mut host = Connection::new(host_conn);
    let out = handle_proto_payload(
        Payload::RegisterHost(RegisterHost {
            host_id: id.to_string(),
            password_hash: hash_password(password).unwrap(),
        }),
        &mut host,
        reg,
    );
    assert_eq!(out.len(), 1);
    assert_eq!(out[0].to, host_conn);
    match &out[0].frame {
        OutFrame::Proto(Envelope { payload: Some(Payload::RegisterAck(a)) }) => {
            assert_eq!(a.host_id, id);
            assert!(a.success);
        }
        _ => panic!("expected a registration ack"),
    }
    host
}

fn connect(reg: &mut SessionRegistry, viewer: &mut Connection, target: &str, pw: &str, now: u64) -> Vec<Outgoing> {
    handle_json_message_at(
        json(
            "connect_request",
            &[("target_host_id", s(target)), ("password_hash", s(pw)), ("viewer_session_id", s("viewer-1"))],
        ),
        viewer,
        reg,
        now,
        "token-1".to_string(),
    )
}

#[test]
fn registry_register_and_lookup() {
    let mut reg = SessionRegistry::new();
    assert_eq!(reg.get_host_tx("h"), None);
    reg.register_host("h".into(), "hash".into(), 7);
    reg.register_viewer("v".into(), 9);
    assert_eq!(reg.get_host_tx("h"), Some(7));
    assert_eq!(reg.get_viewer_tx("v"), Some(9));
    let token = reg.create_session("h".into(), "v".into());
    assert_eq!(token.len(), 36);
    let chars: Vec<char> = token.chars().collect();
    for (i, c) in chars.iter().enumerate() {
        if [8, 13, 18, 23].contains(&i) {
            assert_eq!(*c, '-');
        } else {
            assert!(c.is_ascii_hexdigit() && !c.is_ascii_uppercase());
        }
    }
    assert_eq!(chars[14], '4');
    assert!(['8', '9', 'a', 'b'].contains(&chars[19]));
    assert_eq!(reg.get_session_peer_tx(&token, true), Some(9));
    assert_eq!(reg.get_session_peer_tx(&token, false), Some(7));
    reg.remove_viewer("v");
    assert_eq!(reg.get_session_peer_tx(&token, false), None);
    reg.remove_host("h");
    assert_eq!(reg.get_host_tx("h"), None);
}

#[test]
fn five_failures_block_for_ten_minutes() {
    let mut reg = SessionRegistry::new();
    reg.register_host("h".into(), "hash".into(), 1);
    for i in 0..4 {
        reg.record_failed_attempt_at("h", 1000 + i);
        assert!(!reg.check_rate_limit_at("h", 1000 + i));
    }
    reg.record_failed_attempt_at("h", 5000);
    assert!(reg.check_rate_limit_at("h", 5000));
    assert!(reg.check_rate_limit_at("h", 5000 + 599_999));
    assert!(!reg.check_rate_limit_at("h", 5000 + 600_000));
    assert_eq!(reg.get_host("h").unwrap().failed_attempts, 0);
    reg.reset_failed_attempts("h");
    assert!(!reg.check_rate_limit_at("h", 5000));
    assert!(!reg.check_rate_limit("unknown"));
}

#[test]
fn json_viewer_connects_to_proto_host() {
    let mut reg = SessionRegistry::new();
    let _host = register_host(&mut reg, 1, "123456789", "PW2345");
    let mut viewer = Connection::new(2);
    let out = connect(&mut reg, &mut viewer, "123456789", "PW2345", 10);
    assert_eq!(out.len(), 2);
    assert_eq!(out[0].to, 2);
    assert_eq!(
        json_text(&out[0]),
        r#"{"type":"connect_response","payload":{"accepted":true,"session_token":"token-1","error_message":""}}"#
    );
    assert_eq!(out[1].to, 1);
    match &out[1].frame {
        OutFrame::Proto(Envelope { payload: Some(Payload::IncomingConnection(ic)) }) => {
            assert_eq!(ic.viewer_session_id, "viewer-1")
        }
        _ => panic!("expected IncomingConnection"),
    }
    assert_eq!(viewer.this_viewer_id.as_deref(), Some("viewer-1"));
    assert_eq!(reg.get_session_peer_tx("token-1", true), Some(2));
    assert_eq!(reg.get_session_peer_tx("token-1", false), Some(1));
}

#[test]
fn wrong_password_and_unknown_host() {
    let mut reg = SessionRegistry::new();
    register_host(&mut reg, 1, "h1", "RIGHT2");
    let mut viewer = Connection::new(2);
    let out = connect(&mut reg, &mut viewer, "h1", "WRONG2", 10);
    assert_eq!(out.len(), 1);
    assert_eq!(
        json_text(&out[0]),
        r#"{"type":"connect_response","payload":{"accepted":false,"session_token":"","error_message":"Invalid password"}}"#
    );
    assert_eq!(reg.get_host("h1").unwrap().failed_attempts, 1);
    let out = connect(&mut reg, &mut viewer, "nobody", "x", 10);
    assert_eq!(
        json_text(&out[0]),
        r#"{"type":"connect_response","payload":{"accepted":false,"session_token":"","error_message":"Host not found or offline"}}"#
    );
    assert_eq!(reg.get_session_peer_tx("token-1", true), None);
}

#[test]
fn blocked_host_refuses_even_right_password() {
    let mut reg = SessionRegistry::new();
    register_host(&mut reg, 1, "h1", "RIGHT2");
    let mut viewer = Connection::new(2);
    for _ in 0..5 {
        connect(&mut reg, &mut viewer, "h1", "WRONG2", 100);
    }
    let out = connect(&mut reg, &mut viewer, "h1", "RIGHT2", 200);
    assert_eq!(
        json_text(&out[0]),
        r#"{"type":"connect_response","payload":{"accepted":false,"session_token":"","error_message":"Too many failed attempts. Please wait 10 minutes."}}"#
    );
    let out = connect(&mut reg, &mut viewer, "h1", "RIGHT2", 100 + 600_000);
    assert_eq!(out.len(), 2);
}

#[test]
fn missing_fields_and_unknown_type() {
    let mut reg = SessionRegistry::new();
    let mut c = Connection::new(5);
    let out = handle_json_message(json("connect_request", &[("viewer_session_id", s("v"))]), &mut c, &mut reg);
    assert_eq!(
        json_text(&out[0]),
        r#"{"type":"error","payload":{"code":"MISSING_FIELD","message":"target_host_id is required"}}"#
    );
    let out = handle_json_message(json("connect_request", &[("target_host_id", s("h"))]), &mut c, &mut reg);
    assert_eq!(
        json_text(&out[0]),
        r#"{"type":"error","payload":{"code":"MISSING_FIELD","message":"viewer_session_id is required"}}"#
    );
    let out = handle_json_message(json("register_host", &[]), &mut c, &mut reg);
    assert_eq!(
        json_text(&out[0]),
        r#"{"type":"error","payload":{"code":"MISSING_FIELD","message":"host_id is required"}}"#
    );
    let out = handle_json_message(json("dance", &[]), &mut c, &mut reg);
    assert_eq!(
        json_text(&out[0]),
        r#"{"type":"error","payload":{"code":"UNKNOWN_TYPE","message":"Unknown message type: dance"}}"#
    );
    assert_eq!(c.this_viewer_id, None);
}

#[test]
fn ping_pong_both_protocols() {
    let mut reg = SessionRegistry::new();
    let mut c = Connection::new(5);
    let out = handle_json_message(json("ping", &[("timestamp_ms", JsonValue::PosInt(77))]), &mut c, &mut reg);
    assert_eq!(json_text(&out[0]), r#"{"type":"pong","payload":{"timestamp_ms":77}}"#);
    let out = handle_json_message(json("ping", &[("timestamp_ms", JsonValue::Float)]), &mut c, &mut reg);
    assert_eq!(json_text(&out[0]), r#"{"type":"pong","payload":{"timestamp_ms":0}}"#);
    let out = handle_proto_payload(Payload::Ping(Ping { timestamp_ms: 9 }), &mut c, &mut reg);
    match &out[0].frame {
        OutFrame::Proto(Envelope { payload: Some(Payload::Pong(p)) }) => assert_eq!(p.timestamp_ms, 9),
        _ => panic!("expected pong"),
    }
}

#[test]
fn sdp_relay_directions() {
    let mut reg = SessionRegistry::new();
    let mut host = register_host(&mut reg, 1, "h1", "RIGHT2");
    let mut viewer = Connection::new(2);
    connect(&mut reg, &mut viewer, "h1", "RIGHT2", 10);
    // viewer (JSON) -> host: envelope
    let out = handle_json_message(
        json("sdp_offer", &[("sdp", s("v=0")), ("session_token", s("token-1"))]),
        &mut viewer,
        &mut reg,
    );
    assert_eq!(out.len(), 1);
    assert_eq!(out[0].to, 1);
    match &out[0].frame {
        OutFrame::Proto(Envelope { payload: Some(Payload::SdpOffer(o)) }) => {
            assert_eq!(o.sdp, "v=0");
            assert_eq!(o.session_token, "token-1");
        }
        _ => panic!("expected an envelope"),
    }
    // host (binary) -> viewer: JSON
    let out = handle_proto_payload_at(
        Payload::SdpAnswer(SdpAnswer { sdp: "ans".into(), session_token: "token-1".into() }),
        &mut host,
        &mut reg,
        0,
        "unused".into(),
    );
    assert_eq!(out[0].to, 2);
    assert_eq!(json_text(&out[0]), r#"{"type":"sdp_answer","payload":{"sdp":"ans","session_token":"token-1"}}"#);
    // unknown session: nothing relayed
    let out = handle_proto_payload(
        Payload::SdpOffer(SdpOffer { sdp: "x".into(), session_token: "nope".into() }),
        &mut host,
        &mut reg,
    );
    assert!(out.is_empty());
    // ICE from the viewer
    let out = handle_json_message(
        json(
            "ice_candidate",
            &[
                ("candidate", s("cand")),
                ("sdp_mid", s("0")),
                ("sdp_mline_index", JsonValue::PosInt(1)),
                ("session_token", s("token-1")),
            ],
        ),
        &mut viewer,
        &mut reg,
    );
    match &out[0].frame {
        OutFrame::Proto(Envelope { payload: Some(Payload::IceCandidate(c)) }) => {
            assert_eq!(c.sdp_mline_index, 1);
            assert_eq!(c.candidate, "cand");
        }
        _ => panic!("expected an envelope"),
    }
}

#[test]
fn proto_viewer_gets_proto_reply() {
    let mut reg = SessionRegistry::new();
    register_host(&mut reg, 1, "h1", "RIGHT2");
    let mut viewer = Connection::new(3);
    let out = handle_proto_payload_at(
        Payload::ConnectRequest(ConnectRequest {
            target_host_id: "h1".into(),
            password_hash: "RIGHT2".into(),
            viewer_session_id: "pv".into(),
        }),
        &mut viewer,
        &mut reg,
        0,
        "tok".into(),
    );
    match &out[0].frame {
        OutFrame::Proto(Envelope { payload: Some(Payload::ConnectResponse(r)) }) => {
            assert!(r.accepted);
            assert_eq!(r.session_token, "tok");
            assert_eq!(r.error_message, "");
        }
        _ => panic!("expected an envelope"),
    }
}

#[test]
fn text_and_binary_frames() {
    let mut reg = SessionRegistry::new();
    let mut c = Connection::new(4);
    let out = receive_binary(None, &mut c, &mut reg);
    assert!(out.is_empty());
    assert!(!c.use_json);
    let out = receive_binary(Some(Envelope { payload: None }), &mut c, &mut reg);
    assert!(out.is_empty());
    let out = receive_text(Err("expected value at line 1 column 1".into()), &mut c, &mut reg);
    assert!(c.use_json);
    assert_eq!(
        json_text(&out[0]),
        r#"{"type":"error","payload":{"code":"PARSE_ERROR","message":"Invalid JSON: expected value at line 1 column 1"}}"#
    );
    let out = receive_text(Ok(json("register_host", &[("host_id", s("jh"))])), &mut c, &mut reg);
    assert_eq!(json_text(&out[0]), r#"{"type":"register_ack","payload":{"host_id":"jh","success":true}}"#);
    assert_eq!(reg.get_host_tx("jh"), Some(4));
}

#[test]
fn disconnect_forgets_host_viewer_and_sessions() {
    let mut reg = SessionRegistry::new();
    let host = register_host(&mut reg, 1, "h1", "RIGHT2");
    let mut viewer = Connection::new(2);
    connect(&mut reg, &mut viewer, "h1", "RIGHT2", 10);
    on_disconnect(&viewer, &mut reg);
    assert_eq!(reg.get_viewer_tx("viewer-1"), None);
    assert_eq!(reg.get_session_peer_tx("token-1", false), None);
    assert_eq!(reg.get_host_tx("h1"), Some(1));
    on_disconnect(&host, &mut reg);
    assert_eq!(reg.get_host_tx("h1"), None);
}

#[test]
fn relay_error_message() {
    let reg = SessionRegistry::new();
    match relay_message(&reg, "abc", true, OutFrame::Json("x".into())) {
        Err(e) => {
            assert_eq!(e.message(), "Session not found or peer disconnected: abc");
            assert!(matches!(e, RelayError::SessionNotFound(_)));
        }
        Ok(_) => panic!("no session exists"),
    }
}

#[test]
fn idle_timer() {
    assert!(matches!(idle_action(0, false), IdleAction::Wait));
    assert!(matches!(idle_action(269_999, false), IdleAction::Wait));
    assert!(matches!(idle_action(270_000, false), IdleAction::Warn));
    assert!(matches!(idle_action(270_000, true), IdleAction::Wait));
    assert!(matches!(idle_action(300_000, true), IdleAction::Expire));
    let mut c = Connection::new(1);
    assert!(idle_frames(&c, &IdleAction::Warn).is_empty());
    c.use_json = true;
    let out = idle_frames(&c, &IdleAction::Warn);
    assert_eq!(json_text(&out[0]), r#"{"type":"session_timeout_warning","payload":{"seconds_remaining":30}}"#);
    let out = idle_frames(&c, &IdleAction::Expire);
    assert_eq!(json_text(&out[0]), r#"{"type":"session_expired","payload":{"reason":"idle_timeout"}}"#);
}

#[test]
fn connect_request_password_keys() {
    let mut reg = SessionRegistry::new();
    register_host(&mut reg, 1, "h", "pw");
    // The older `password` key is read when `password_hash` is absent.
    let mut v1 = Connection::new(2);
    let out = handle_json_message_at(
        json("connect_request", &[("target_host_id", s("h")), ("password", s("pw")), ("viewer_session_id", s("v1"))]),
        &mut v1,
        &mut reg,
        0,
        "t1".to_string(),
    );
    assert_eq!(out.len(), 2);
    assert!(json_text(&out[0]).contains("\"accepted\":true"));
    // `password_hash` wins over `password`.
    let mut v2 = Connection::new(3);
    let out = handle_json_message_at(
        json(
            "connect_request",
            &[("target_host_id", s("h")), ("password_hash", s("wrong")), ("password", s("pw")), ("viewer_session_id", s("v2"))],
        ),
        &mut v2,
        &mut reg,
        0,
        "t2".to_string(),
    );
    assert_eq!(out.len(), 1);
    assert!(json_text(&out[0]).contains("Invalid password"));
}
