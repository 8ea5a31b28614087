use eremote::capture::{monitor_geom, monitors_json, primary_index, select_monitor, MonitorInfo};
use eremote::clock::now_ms;
use eremote::config::{default_allow_control, eq_ignore_ascii_case, parse_allow_control, turn_config_from, Config};
use eremote::host::{
    approval_step, channel_kind, needs_new_capturer, next_backoff, push_chat, session_is_dead,
    should_accept_offer, status_text, tray_icon_rgba, ApprovalStep, ChannelKind, ChatLine, PeerState,
};
use eremote::input::{hid_to_enigo_key, key_event, Direction, Key, Modifiers};
use eremote::json_protocol::JsonValue;
use eremote::protocol::{
    envelope_to_event, Envelope, ErrorMessage, IceCandidate, IncomingConnection, Payload, Pong,
    RegisterAck, SdpOffer, SignalingEvent,
};
use std::path::PathBuf;

fn monitor(index: usize, name: &str, primary: bool) -> MonitorInfo {
    MonitorInfo { index, name: name.to_string(), width: 2560, height: 1440, x: 1920 * index as i32, y: 0, is_primary: primary }
}

#[test]
fn modifiers_read_their_bits() {
    let m = Modifiers(Modifiers::CTRL | Modifiers::META);
    assert!(m.ctrl() && m.meta());
    assert!(!m.shift() && !m.alt());
    let none = Modifiers(0);
    assert!(!none.ctrl() && !none.shift() && !none.alt() && !none.meta());
    let all = Modifiers(15);
    assert!(all.ctrl() && all.shift() && all.alt() && all.meta());
}

#[test]
fn hid_codes_map_to_keys() {
    assert!(hid_to_enigo_key(0x04) == Some(Key::Unicode('a')));
    assert!(hid_to_enigo_key(0x1D) == Some(Key::Unicode('z')));
    assert!(hid_to_enigo_key(0x1E) == Some(Key::Unicode('1')));
    assert!(hid_to_enigo_key(0x26) == Some(Key::Unicode('9')));
    assert!(hid_to_enigo_key(0x27) == Some(Key::Unicode('0')));
    assert!(hid_to_enigo_key(0x28) == Some(Key::Return));
    assert!(hid_to_enigo_key(0x2C) == Some(Key::Space));
    assert!(hid_to_enigo_key(0x2D) == Some(Key::Unicode('-')));
    assert!(hid_to_enigo_key(0x52) == Some(Key::UpArrow));
    assert!(hid_to_enigo_key(0xE4) == Some(Key::Control));
    assert!(hid_to_enigo_key(0xE7) == Some(Key::Meta));
    assert!(hid_to_enigo_key(0x03) == None);
    assert!(hid_to_enigo_key(0x2F) == None);
    assert!(key_event(0x29, true) == Some((Key::Escape, Direction::Press)));
    assert!(key_event(0x2A, false) == Some((Key::Backspace, Direction::Release)));
    assert!(key_event(0x99, true) == None);
}

#[test]
fn signaling_events_from_envelopes() {
    let ev = envelope_to_event(Envelope {
        payload: Some(Payload::RegisterAck(RegisterAck { host_id: "h".into(), success: true })),
    });
    assert!(matches!(ev, Some(SignalingEvent::Registered { ref host_id }) if host_id == "h"));
    let ev = envelope_to_event(Envelope {
        payload: Some(Payload::RegisterAck(RegisterAck { host_id: "h".into(), success: false })),
    });
    assert!(matches!(ev, Some(SignalingEvent::Error(ref m)) if m == "Registration rejected for host_id=h"));
    let ev = envelope_to_event(Envelope {
        payload: Some(Payload::Error(ErrorMessage { code: "E1".into(), message: "bad".into() })),
    });
    assert!(matches!(ev, Some(SignalingEvent::Error(ref m)) if m == "code=E1 msg=bad"));
    let ev = envelope_to_event(Envelope {
        payload: Some(Payload::IncomingConnection(IncomingConnection { viewer_session_id: "v".into() })),
    });
    assert!(matches!(ev, Some(SignalingEvent::IncomingConnection { ref viewer_session_id }) if viewer_session_id == "v"));
    let ev = envelope_to_event(Envelope {
        payload: Some(Payload::SdpOffer(SdpOffer { sdp: "s".into(), session_token: "t".into() })),
    });
    assert!(matches!(ev, Some(SignalingEvent::SdpOffer { ref sdp, .. }) if sdp == "s"));
    let ev = envelope_to_event(Envelope {
        payload: Some(Payload::IceCandidate(IceCandidate {
            candidate: "c".into(),
            sdp_mid: "m".into(),
            sdp_mline_index: 2,
            session_token: "t".into(),
        })),
    });
    assert!(matches!(ev, Some(SignalingEvent::IceCandidate { sdp_mline_index: 2, .. })));
    assert!(envelope_to_event(Envelope { payload: Some(Payload::Pong(Pong { timestamp_ms: 1 })) }).is_none());
    assert!(envelope_to_event(Envelope { payload: None }).is_none());
}

#[test]
fn chat_keeps_last_200_lines() {
    let mut log = Vec::new();
    for i in 0..205 {
        push_chat(&mut log, ChatLine { from_me: i % 2 == 0, text: format!("line {i}") });
        assert!(log.len() <= 200);
    }
    assert_eq!(log.len(), 200);
    assert_eq!(log[0].text, "line 5");
    assert_eq!(log[199].text, "line 204");
}

#[test]
fn approval_decisions() {
    assert!(approval_step(1, 0) == ApprovalStep::Allow);
    assert!(approval_step(2, 0) == ApprovalStep::Deny);
    assert!(approval_step(0, 29_999) == ApprovalStep::Wait);
    assert!(approval_step(0, 30_000) == ApprovalStep::Deny);
    assert!(approval_step(7, 30_000) == ApprovalStep::Deny);
    assert!(approval_step(1, 40_000) == ApprovalStep::Allow);
}

#[test]
fn backoff_doubles_to_thirty_seconds() {
    let mut b = 1_000;
    let mut seen = vec![b];
    for _ in 0..7 {
        b = next_backoff(b);
        seen.push(b);
    }
    assert_eq!(seen, vec![1_000, 2_000, 4_000, 8_000, 16_000, 30_000, 30_000, 30_000]);
}

#[test]
fn session_health() {
    assert!(session_is_dead(PeerState::Failed, 0));
    assert!(session_is_dead(PeerState::Closed, 0));
    assert!(!session_is_dead(PeerState::Disconnected, 60_000));
    assert!(session_is_dead(PeerState::Disconnected, 60_001));
    assert!(!session_is_dead(PeerState::Connected, 1_000_000));
    assert!(should_accept_offer(0));
    assert!(!should_accept_offer(1));
}

#[test]
fn channels_and_capture() {
    assert!(channel_kind("input") == ChannelKind::Input);
    assert!(channel_kind("chat") == ChannelKind::Chat);
    assert!(channel_kind("file") == ChannelKind::File);
    assert!(channel_kind("control") == ChannelKind::Control);
    assert!(channel_kind("Input") == ChannelKind::Other);
    assert!(needs_new_capturer(0, usize::MAX, false));
    assert!(needs_new_capturer(1, 0, true));
    assert!(!needs_new_capturer(1, 1, true));
}

#[test]
fn status_and_icon() {
    assert_eq!(status_text(0), "● Waiting for connection");
    assert_eq!(status_text(1), "● 1 connected");
    assert_eq!(status_text(12), "● 12 connected");
    let icon = tray_icon_rgba();
    assert_eq!(icon.len(), 1024);
    assert_eq!(&icon[..8], &[0, 140, 200, 255, 0, 140, 200, 255]);
}

#[test]
fn monitors() {
    let ms = vec![monitor(0, "left", false), monitor(1, "main", true), monitor(2, "right", true)];
    assert_eq!(primary_index(&ms), 1);
    assert_eq!(primary_index(&vec![monitor(0, "a", false)]), 0);
    assert_eq!(primary_index(&Vec::new()), 0);
    let g = monitor_geom(&ms, 2);
    assert_eq!((g.x, g.y, g.width, g.height), (3840, 0, 2560, 1440));
    let g = monitor_geom(&ms, 9);
    assert_eq!((g.x, g.y, g.width, g.height), (0, 0, 1920, 1080));
    let text = String::from_utf8(monitors_json(&ms[..1].to_vec(), 0)).unwrap();
    assert_eq!(
        text,
        r#"{"list":[{"height":1440,"index":0,"name":"left","primary":false,"width":2560}],"selected":0,"type":"monitors"}"#
    );
    let msg = vec![("type".to_string(), JsonValue::Str("select_monitor".into())), ("index".to_string(), JsonValue::PosInt(2))];
    let sel = select_monitor(&msg, &ms).unwrap();
    assert_eq!(sel.0, 2);
    assert_eq!(sel.1.x, 3840);
    let out_of_range = vec![("type".to_string(), JsonValue::Str("select_monitor".into())), ("index".to_string(), JsonValue::PosInt(3))];
    assert!(select_monitor(&out_of_range, &ms).is_none());
    let other = vec![("type".to_string(), JsonValue::Str("hello".into())), ("index".to_string(), JsonValue::PosInt(0))];
    assert!(select_monitor(&other, &ms).is_none());
}

#[test]
fn config_defaults_and_overrides() {
    assert!(default_allow_control());
    assert!(!parse_allow_control("0"));
    assert!(!parse_allow_control("false"));
    assert!(!parse_allow_control("FaLsE"));
    assert!(parse_allow_control("1"));
    assert!(parse_allow_control("no"));
    assert!(parse_allow_control("falsey"));
    assert!(eq_ignore_ascii_case("ABC", "abc"));
    assert!(!eq_ignore_ascii_case("ABC", "abd"));
    let mut c = Config::default_config("123456789".into(), "PW".into(), None, None, PathBuf::from("/home/u"));
    assert_eq!(c.signaling_server_url, "ws://localhost:8080");
    assert_eq!(c.stun_servers, vec!["stun:stun.l.google.com:19302", "stun:stun1.l.google.com:19302"]);
    assert!(c.allow_control);
    assert_eq!(c.allowed_dirs, vec![PathBuf::from("/home/u")]);
    let turn = turn_config_from(Some("turn:x".into()), None, Some("secret".into())).unwrap();
    assert_eq!((turn.url.as_str(), turn.username.as_str(), turn.credential.as_str()), ("turn:x", "", "secret"));
    assert!(turn_config_from(None, Some("u".into()), None).is_none());
    c.apply_launch_settings("NEWPW2".into(), Some("wss://example/signal".into()), Some("FALSE".into()), Some(turn));
    assert_eq!(c.password, "NEWPW2");
    assert_eq!(c.signaling_server_url, "wss://example/signal");
    assert!(!c.allow_control);
    assert_eq!(c.turn_server.as_ref().unwrap().url, "turn:x");
    let n = c.network_config();
    assert_eq!(n.host_id, "123456789");
    assert_eq!(n.stun_servers.len(), 2);
}

#[test]
fn clock_reads_after_2020() {
    assert!(now_ms() > 1_577_836_800_000);
}
