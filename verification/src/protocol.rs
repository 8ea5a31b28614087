//! Signaling messages exchanged between the host agent and the server (the
//! binary envelope), and the events the host agent derives from them.

use vstd::prelude::*;

verus! {

/// A host announces itself with its id and the PHC hash of its password.
#[derive(Debug, Clone)]
pub struct RegisterHost {
    pub host_id: String,
    pub password_hash: String,
}

/// The server's answer to a registration.
#[derive(Debug, Clone)]
pub struct RegisterAck {
    pub host_id: String,
    pub success: bool,
}

/// A viewer asks to connect to a host.
#[derive(Debug, Clone)]
pub struct ConnectRequest {
    pub target_host_id: String,
    pub password_hash: String,
    pub viewer_session_id: String,
}

/// The server's answer to a connection request.
#[derive(Debug, Clone)]
pub struct ConnectResponse {
    pub accepted: bool,
    pub session_token: String,
    pub error_message: String,
}

/// Tells a host that a viewer is connecting.
#[derive(Debug, Clone)]
pub struct IncomingConnection {
    pub viewer_session_id: String,
}

/// A WebRTC session description offer.
#[derive(Debug, Clone)]
pub struct SdpOffer {
    pub sdp: String,
    pub session_token: String,
}

/// A WebRTC session description answer.
#[derive(Debug, Clone)]
pub struct SdpAnswer {
    pub sdp: String,
    pub session_token: String,
}

/// A trickle ICE candidate.
#[derive(Debug, Clone)]
pub struct IceCandidate {
    pub candidate: String,
    pub sdp_mid: String,
    pub sdp_mline_index: i32,
    pub session_token: String,
}

/// An error reported by the server.
#[derive(Debug, Clone)]
pub struct ErrorMessage {
    pub code: String,
    pub message: String,
}

/// Keep-alive request.
#[derive(Debug, Clone)]
pub struct Ping {
    pub timestamp_ms: u64,
}

/// Keep-alive answer.
#[derive(Debug, Clone)]
pub struct Pong {
    pub timestamp_ms: u64,
}

/// The body of an envelope.
#[derive(Debug, Clone)]
pub enum Payload {
    RegisterHost(RegisterHost),
    RegisterAck(RegisterAck),
    ConnectRequest(ConnectRequest),
    ConnectResponse(ConnectResponse),
    IncomingConnection(IncomingConnection),
    SdpOffer(SdpOffer),
    SdpAnswer(SdpAnswer),
    IceCandidate(IceCandidate),
    Error(ErrorMessage),
    Ping(Ping),
    Pong(Pong),
}

/// The binary signaling message: one optional payload.
#[derive(Debug, Clone)]
pub struct Envelope {
    pub payload: Option<Payload>,
}

/// Events the host agent's signaling client hands to the application.
#[derive(Debug, Clone)]
pub enum SignalingEvent {
    /// The host registered with the signaling server.
    Registered { host_id: String },
    /// A viewer is requesting a connection.
    IncomingConnection { viewer_session_id: String },
    /// A viewer sent an SDP offer that the host must answer.
    SdpOffer { sdp: String, session_token: String },
    /// A viewer sent a trickle ICE candidate.
    IceCandidate { candidate: String, sdp_mid: String, sdp_mline_index: i32, session_token: String },
    /// The connection to the signaling server closed.
    Disconnected,
    /// The server reported a non-fatal error.
    Error(String),
}

/// The text of the event for a rejected registration.
pub open spec fn rejected_registration_text(host_id: Seq<char>) -> Seq<char> {
    "Registration rejected for host_id="@ + host_id
}

/// The text of the event for a server error.
pub open spec fn server_error_text(code: Seq<char>, message: Seq<char>) -> Seq<char> {
    "code="@ + code + " msg="@ + message
}

/// Whether `ev` is the event that the host agent derives from `env`.
pub open spec fn is_event_for(env: Envelope, ev: Option<SignalingEvent>) -> bool {
    match env.payload {
        Some(Payload::RegisterAck(a)) => if a.success {
            ev == Some(SignalingEvent::Registered { host_id: a.host_id })
        } else {
            ev matches Some(SignalingEvent::Error(t)) && t@ == rejected_registration_text(a.host_id@)
        },
        Some(Payload::IncomingConnection(ic)) => ev == Some(
            SignalingEvent::IncomingConnection { viewer_session_id: ic.viewer_session_id },
        ),
        Some(Payload::SdpOffer(o)) => ev == Some(
            SignalingEvent::SdpOffer { sdp: o.sdp, session_token: o.session_token },
        ),
        Some(Payload::IceCandidate(c)) => ev == Some(
            SignalingEvent::IceCandidate {
                candidate: c.candidate,
                sdp_mid: c.sdp_mid,
                sdp_mline_index: c.sdp_mline_index,
                session_token: c.session_token,
            },
        ),
        Some(Payload::Error(e)) => ev matches Some(SignalingEvent::Error(t)) && t@
            == server_error_text(e.code@, e.message@),
        _ => ev is None,
    }
}

/// Maps a received envelope to the event the application handles, or `None`
/// for messages that need no handling (keep-alives, messages meant for the
/// server, an empty envelope).
pub fn envelope_to_event(envelope: Envelope) -> (ev: Option<SignalingEvent>)
    ensures
        is_event_for(envelope, ev),
{
    let ghost env = envelope;
    match envelope.payload {
        Some(Payload::RegisterAck(ack)) => {
            if ack.success {
                Some(SignalingEvent::Registered { host_id: ack.host_id })
            } else {
                let mut t = "Registration rejected for host_id=".to_string();
                t.append(ack.host_id.as_str());
                Some(SignalingEvent::Error(t))
            }
        },
        Some(Payload::IncomingConnection(ic)) => {
            Some(SignalingEvent::IncomingConnection { viewer_session_id: ic.viewer_session_id })
        },
        Some(Payload::SdpOffer(offer)) => {
            Some(SignalingEvent::SdpOffer { sdp: offer.sdp, session_token: offer.session_token })
        },
        Some(Payload::IceCandidate(ice)) => {
            Some(
                SignalingEvent::IceCandidate {
                    candidate: ice.candidate,
                    sdp_mid: ice.sdp_mid,
                    sdp_mline_index: ice.sdp_mline_index,
                    session_token: ice.session_token,
                },
            )
        },
        Some(Payload::Error(err)) => {
            let mut t = "code=".to_string();
            t.append(err.code.as_str());
            t.append(" msg=");
            t.append(err.message.as_str());
            Some(SignalingEvent::Error(t))
        },
        _ => None,
    }
}

/// Law: the event the host agent takes from an envelope carries the
/// envelope's fields, each in its own place: an ICE candidate's candidate
/// text, sdp_mid, line index and token; an offer's description and token;
/// the connecting viewer; the registered host id. A rejected registration
/// and a server error become error events naming the host id, or the code
/// and message; every other envelope gives no event.
pub proof fn law_event_keeps_fields(env: Envelope, ev: Option<SignalingEvent>)
    requires
        is_event_for(env, ev),
    ensures
        env.payload matches Some(Payload::IceCandidate(c)) ==> (ev matches Some(
            SignalingEvent::IceCandidate { candidate, sdp_mid, sdp_mline_index, session_token },
        ) && candidate@ == c.candidate@ && sdp_mid@ == c.sdp_mid@ && sdp_mline_index == c.sdp_mline_index
            && session_token@ == c.session_token@),
        env.payload matches Some(Payload::SdpOffer(o)) ==> (ev matches Some(
            SignalingEvent::SdpOffer { sdp, session_token },
        ) && sdp@ == o.sdp@ && session_token@ == o.session_token@),
        env.payload matches Some(Payload::IncomingConnection(ic)) ==> (ev matches Some(
            SignalingEvent::IncomingConnection { viewer_session_id },
        ) && viewer_session_id@ == ic.viewer_session_id@),
        env.payload matches Some(Payload::RegisterAck(a)) ==> (if a.success {
            ev matches Some(SignalingEvent::Registered { host_id }) && host_id@ == a.host_id@
        } else {
            ev matches Some(SignalingEvent::Error(t)) && t@ == "Registration rejected for host_id="@
                + a.host_id@
        }),
        env.payload matches Some(Payload::Error(e)) ==> (ev matches Some(SignalingEvent::Error(t)) && t@
            == "code="@ + e.code@ + " msg="@ + e.message@),
        env.payload is None || (env.payload matches Some(p) && (p is RegisterHost || p is ConnectRequest
            || p is ConnectResponse || p is SdpAnswer || p is Ping || p is Pong)) ==> ev is None,
{
}

} // verus!
