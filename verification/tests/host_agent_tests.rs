use eremote::clock::{millis_or_zero, now_ms};
use eremote::host::{HostAction, HostAgent, HostEvent, PeerState};
use eremote::input::{gated_key_event, Direction, Key};
use eremote::protocol::SignalingEvent;

fn offer(token: &str) -> HostEvent {
    HostEvent::Signaling(SignalingEvent::SdpOffer { sdp: "v=0".into(), session_token: token.into() })
}

#[test]
fn one_viewer_with_consent() {
    let mut a = HostAgent::new();
    assert!(a.step(HostEvent::Connected).is_empty());
    let out = a.step(offer("t1"));
    assert!(matches!(out.as_slice(), [HostAction::RequestApproval { session_token, .. }] if session_token == "t1"));
    // Denied: nothing opens.
    let out = a.step(HostEvent::ApprovalAnswered { sdp: "v=0".into(), session_token: "t1".into(), allowed: false });
    assert!(out.is_empty());
    let out = a.step(HostEvent::ApprovalAnswered { sdp: "v=0".into(), session_token: "t1".into(), allowed: true });
    assert!(matches!(out.as_slice(), [HostAction::OpenSession { session_token, .. }] if session_token == "t1"));
    assert!(a.step(HostEvent::SessionOpened { session_token: "t1".into() }).is_empty());
    assert_eq!(a.viewer_count(), 1);
    // A second viewer is not even put to the host.
    assert!(a.step(offer("t2")).is_empty());
    let out = a.step(HostEvent::ApprovalAnswered { sdp: "v=0".into(), session_token: "t2".into(), allowed: true });
    assert!(out.is_empty());
    // Reopening the same session counts it once.
    a.step(HostEvent::SessionOpened { session_token: "t1".into() });
    assert_eq!(a.viewer_count(), 1);
}

#[test]
fn ice_health_and_ping() {
    let mut a = HostAgent::new();
    a.step(HostEvent::SessionOpened { session_token: "t1".into() });
    let ice = |t: &str| {
        HostEvent::Signaling(SignalingEvent::IceCandidate {
            candidate: "c".into(),
            sdp_mid: "0".into(),
            sdp_mline_index: 0,
            session_token: t.into(),
        })
    };
    assert!(matches!(a.step(ice("t1")).as_slice(), [HostAction::AddIceCandidate { session_token, .. }] if session_token == "t1"));
    assert!(a.step(ice("other")).is_empty());
    let health = |s: PeerState, age: u64| HostEvent::Health { session_token: "t1".into(), state: s, age_ms: age };
    assert!(a.step(health(PeerState::Connected, 999_999)).is_empty());
    assert!(a.step(health(PeerState::Disconnected, 60_000)).is_empty());
    assert_eq!(a.viewer_count(), 1);
    let out = a.step(health(PeerState::Disconnected, 60_001));
    assert!(matches!(out.as_slice(), [HostAction::CloseSession { session_token }] if session_token == "t1"));
    assert_eq!(a.viewer_count(), 0);
    assert!(matches!(a.step(HostEvent::PingTick { now_ms: 42 }).as_slice(), [HostAction::SendPing { timestamp_ms: 42 }]));
}

#[test]
fn reconnect_backoff() {
    let mut a = HostAgent::new();
    let delays: Vec<u64> = (0..7)
        .map(|_| match a.step(HostEvent::ConnectFailed).as_slice() {
            [HostAction::Reconnect { delay_ms }] => *delay_ms,
            _ => panic!("expected a reconnect"),
        })
        .collect();
    assert_eq!(delays, vec![1_000, 2_000, 4_000, 8_000, 16_000, 30_000, 30_000]);
    a.step(HostEvent::Connected);
    a.step(HostEvent::SessionOpened { session_token: "t".into() });
    let out = a.step(HostEvent::Signaling(SignalingEvent::Disconnected));
    assert!(matches!(out.as_slice(), [HostAction::CloseAll, HostAction::Reconnect { delay_ms: 1_000 }]));
    assert_eq!(a.viewer_count(), 0);
    let out = a.step(HostEvent::EventsClosed);
    assert!(matches!(out.as_slice(), [HostAction::CloseAll, HostAction::Reconnect { delay_ms: 2_000 }]));
    a.step(HostEvent::SessionOpened { session_token: "t".into() });
    assert!(matches!(a.step(HostEvent::DisconnectAll).as_slice(), [HostAction::CloseAll]));
    assert_eq!(a.viewer_count(), 0);
    assert!(matches!(a.step(HostEvent::Shutdown).as_slice(), [HostAction::CloseAll, HostAction::Stop]));
}

#[test]
fn clock_readings() {
    assert_eq!(millis_or_zero(None), 0);
    assert_eq!(millis_or_zero(Some(1_700_000_000_123)), 1_700_000_000_123);
    assert_eq!(millis_or_zero(Some((1u128 << 64) + 5)), 5);
    assert!(now_ms() > 1_600_000_000_000);
}

#[test]
fn view_only_drops_keys() {
    assert!(gated_key_event(false, 0x04, true).is_none());
    assert!(matches!(gated_key_event(true, 0x04, true), Some((Key::Unicode('a'), Direction::Press))));
    assert!(matches!(gated_key_event(true, 0x04, false), Some((Key::Unicode('a'), Direction::Release))));
    assert!(gated_key_event(true, 0xFFFF, true).is_none());
}
