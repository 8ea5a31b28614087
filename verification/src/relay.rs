//! Routing of a message to the other party of a session.
use crate::protocol::Envelope;
use crate::session_registry::{peer_of, ConnId, SessionRegistry};
use vstd::prelude::*;

verus! {

/// What is sent to a client: JSON text, or an envelope the server encodes
/// in binary.
pub enum OutFrame {
    Json(String),
    Proto(Envelope),
}

/// A frame and the connection it goes to.
pub struct Outgoing {
    pub to: ConnId,
    pub frame: OutFrame,
}

/// Why a message could not be relayed.
pub enum RelayError {
    /// No session has the token, or its other party is gone.
    SessionNotFound(String),
}

impl RelayError {
    /// `Session not found or peer disconnected: <token>`.
    pub fn message(&self) -> (r: String)
        ensures
            match self {
                RelayError::SessionNotFound(t) => r@ == "Session not found or peer disconnected: "@
                    + t@,
            },
    {
        match self {
            RelayError::SessionNotFound(t) => {
                let mut r = "Session not found or peer disconnected: ".to_string();
                r.append(t.as_str());
                r
            },
        }
    }
}

/// Addresses `data` to the other party of the session `session_token`: the
/// viewer when the sender is the host, the host otherwise.
pub fn relay_message(
    registry: &SessionRegistry,
    session_token: &str,
    sender_is_host: bool,
    data: OutFrame,
) -> (r: Result<Outgoing, RelayError>)
    ensures
        match peer_of(
            registry.hosts(),
            registry.viewers(),
            registry.sessions(),
            session_token@,
            sender_is_host,
        ) {
            Some(peer) => r == Ok::<Outgoing, RelayError>(Outgoing { to: peer, frame: data }),
            None => r matches Err(RelayError::SessionNotFound(t)) && t@ == session_token@,
        },
{
    match registry.get_session_peer_tx(session_token, sender_is_host) {
        Some(peer) => Ok(Outgoing { to: peer, frame: data }),
        None => Err(RelayError::SessionNotFound(session_token.to_string())),
    }
}

} // verus!
