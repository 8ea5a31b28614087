//! The signaling server's handling of one client connection: JSON messages
//! from viewers, binary envelopes from hosts, the idle timeout, and the
//! cleanup when the connection ends.
use crate::auth::{phc_verifies, verify_password};
use crate::json_protocol::{
    as_i64, as_str, as_u64, connect_response_text, error_text, ice_candidate_text,
    json_connect_response, json_error, json_ice_candidate, json_pong, json_register_ack,
    json_sdp_answer, json_sdp_offer, json_session_expired, json_session_timeout_warning, member,
    payload_i64_or_zero, payload_str, payload_str_or_empty, payload_u64_or_zero, pong_text,
    register_ack_text, sdp_text, session_expired_text, timeout_warning_text, JsonMessage, JsonValue,
};
use crate::protocol::{
    ConnectResponse, Envelope, IceCandidate, IncomingConnection, Payload, Pong, RegisterAck,
    SdpAnswer, SdpOffer,
};
use crate::relay::{relay_message, OutFrame, Outgoing};
use crate::session_registry::{
    after_failure, after_success, block_deadline, fresh_host, is_blocked, is_uuid_v4_text, random_uuid,
    peer_of, sessions_without_viewer, ActiveSession, ConnId, HostEntry, SessionRegistry, ViewerEntry,
    BLOCK_MS, CLOCK_CAP, MAX_FAILED_ATTEMPTS,
};
use crate::wire::{decimal_int, json_bool, json_object, json_str, str_eq};
use vstd::prelude::*;

verus! {

/// What the server knows of one client connection.
pub struct Connection {
    pub id: ConnId,
    /// Set once the client sent a text frame; replies then go out as text.
    pub use_json: bool,
    /// The host id this connection registered, if any.
    pub this_host_id: Option<String>,
    /// The viewer session id this connection connected as, if any.
    pub this_viewer_id: Option<String>,
}

impl Connection {
    /// A fresh connection: binary, neither host nor viewer yet.
    pub fn new(id: ConnId) -> (c: Self)
        ensures
            c == (Connection { id, use_json: false, this_host_id: None, this_viewer_id: None }),
    {
        Connection { id, use_json: false, this_host_id: None, this_viewer_id: None }
    }
}

/// Reply to a blocked host's connection request.
pub open spec fn blocked_text() -> Seq<char> {
    "Too many failed attempts. Please wait 10 minutes."@
}

/// Reply to a wrong password.
pub open spec fn invalid_password_text() -> Seq<char> {
    "Invalid password"@
}

/// Reply when the host is not registered.
pub open spec fn host_not_found_text() -> Seq<char> {
    "Host not found or offline"@
}

/// How a connection request turns out.
pub enum ConnectOutcome {
    Blocked,
    NoHost,
    WrongPassword,
    Accepted,
}

/// The outcome of a connection request to `target` with `password` at `now`:
/// a blocked host refuses before the password is looked at.
pub open spec fn connect_outcome(
    hosts: Map<Seq<char>, crate::session_registry::HostEntry>,
    target: Seq<char>,
    password: Seq<char>,
    now: u64,
) -> ConnectOutcome {
    if hosts.contains_key(target) && is_blocked(hosts[target], now) {
        ConnectOutcome::Blocked
    } else if !hosts.contains_key(target) {
        ConnectOutcome::NoHost
    } else if phc_verifies(password, hosts[target].password_hash@) {
        ConnectOutcome::Accepted
    } else {
        ConnectOutcome::WrongPassword
    }
}

/// `f` is the JSON text `text`.
pub open spec fn is_json(f: OutFrame, text: Seq<char>) -> bool {
    f matches OutFrame::Json(s) && s@ == text
}

/// `f` answers a connection request, as JSON or as an envelope.
pub open spec fn is_connect_reply(
    f: OutFrame,
    json: bool,
    accepted: bool,
    token: Seq<char>,
    err: Seq<char>,
) -> bool {
    if json {
        is_json(f, connect_response_text(accepted, token, err))
    } else {
        f matches OutFrame::Proto(Envelope { payload: Some(Payload::ConnectResponse(c)) })
            && c.accepted == accepted && c.session_token@ == token && c.error_message@ == err
    }
}

/// `f` tells a host that `viewer` is connecting.
pub open spec fn is_incoming(f: OutFrame, viewer: Seq<char>) -> bool {
    f matches OutFrame::Proto(Envelope { payload: Some(Payload::IncomingConnection(ic)) })
        && ic.viewer_session_id@ == viewer
}

/// `f` acknowledges the registration of `host_id`.
pub open spec fn is_register_ack(f: OutFrame, json: bool, host_id: Seq<char>) -> bool {
    if json {
        is_json(f, register_ack_text(host_id, true))
    } else {
        f matches OutFrame::Proto(Envelope { payload: Some(Payload::RegisterAck(a)) })
            && a.host_id@ == host_id && a.success
    }
}

/// `f` is an SDP offer envelope.
pub open spec fn is_sdp_offer(f: OutFrame, sdp: Seq<char>, token: Seq<char>) -> bool {
    f matches OutFrame::Proto(Envelope { payload: Some(Payload::SdpOffer(o)) }) && o.sdp@ == sdp
        && o.session_token@ == token
}

/// `f` is an SDP answer envelope.
pub open spec fn is_sdp_answer(f: OutFrame, sdp: Seq<char>, token: Seq<char>) -> bool {
    f matches OutFrame::Proto(Envelope { payload: Some(Payload::SdpAnswer(o)) }) && o.sdp@ == sdp
        && o.session_token@ == token
}

/// `f` is an ICE candidate envelope.
pub open spec fn is_ice(
    f: OutFrame,
    candidate: Seq<char>,
    sdp_mid: Seq<char>,
    index: i32,
    token: Seq<char>,
) -> bool {
    f matches OutFrame::Proto(Envelope { payload: Some(Payload::IceCandidate(c)) })
        && c.candidate@ == candidate && c.sdp_mid@ == sdp_mid && c.sdp_mline_index == index
        && c.session_token@ == token
}

/// `out` is the single frame `f` sent back on the connection `c`.
pub open spec fn reply_only(c: Connection, out: Seq<Outgoing>, f: spec_fn(OutFrame) -> bool) -> bool {
    out.len() == 1 && out[0].to == c.id && f(out[0].frame)
}

/// `out` relays a frame accepted by `f` to the other party of session
/// `token`, or is empty when there is none.
pub open spec fn relayed(
    r: SessionRegistry,
    token: Seq<char>,
    sender_is_host: bool,
    out: Seq<Outgoing>,
    f: spec_fn(OutFrame) -> bool,
) -> bool {
    match peer_of(r.hosts(), r.viewers(), r.sessions(), token, sender_is_host) {
        Some(peer) => out.len() == 1 && out[0].to == peer && f(out[0].frame),
        None => out.len() == 0,
    }
}

/// Registry and connection are as they were.
pub open spec fn unchanged(r0: SessionRegistry, r1: SessionRegistry, c0: Connection, c1: Connection) -> bool {
    &&& r1.hosts() == r0.hosts()
    &&& r1.viewers() == r0.viewers()
    &&& r1.sessions() == r0.sessions()
    &&& c1 == c0
}

/// A connection request from the viewer `viewer` on connection `c0`: the
/// viewer is registered; a blocked, unknown or wrongly addressed host gets a
/// refusal; the right password resets the host's count, opens a session
/// under `token`, accepts the viewer and tells the host.
pub open spec fn connect_step(
    r0: SessionRegistry,
    r1: SessionRegistry,
    c0: Connection,
    c1: Connection,
    target: String,
    password: Seq<char>,
    viewer: String,
    now: u64,
    token: String,
    json: bool,
    out: Seq<Outgoing>,
) -> bool {
    let hosts = r0.hosts();
    let t = target@;
    let outcome = connect_outcome(hosts, t, password, now);
    &&& r1.viewers() == r0.viewers().insert(viewer@, ViewerEntry { viewer_session_id: viewer, client: c0.id })
    &&& c1 == Connection { this_viewer_id: Some(viewer), ..c0 }
    &&& r1.hosts() == (match outcome {
        ConnectOutcome::Accepted => hosts.insert(t, after_success(hosts[t])),
        ConnectOutcome::WrongPassword => hosts.insert(t, after_failure(hosts[t], now)),
        _ => hosts,
    })
    &&& r1.sessions() == (if outcome is Accepted {
        r0.sessions().insert(
            token@,
            ActiveSession { host_id: target, viewer_session_id: viewer, session_token: token },
        )
    } else {
        r0.sessions()
    })
    &&& match outcome {
        ConnectOutcome::Accepted => {
            &&& out.len() == 2
            &&& out[0].to == c0.id
            &&& is_connect_reply(out[0].frame, json, true, token@, Seq::empty())
            &&& out[1].to == hosts[t].client
            &&& is_incoming(out[1].frame, viewer@)
        },
        ConnectOutcome::Blocked => reply_only(
            c0,
            out,
            |f: OutFrame| is_connect_reply(f, json, false, Seq::empty(), blocked_text()),
        ),
        ConnectOutcome::NoHost => reply_only(
            c0,
            out,
            |f: OutFrame| is_connect_reply(f, json, false, Seq::empty(), host_not_found_text()),
        ),
        ConnectOutcome::WrongPassword => reply_only(
            c0,
            out,
            |f: OutFrame| is_connect_reply(f, json, false, Seq::empty(), invalid_password_text()),
        ),
    }
}

fn connect_reply(json: bool, accepted: bool, token: String, err: String) -> (f: OutFrame)
    ensures
        is_connect_reply(f, json, accepted, token@, err@),
{
    if json {
        OutFrame::Json(json_connect_response(accepted, token, err))
    } else {
        OutFrame::Proto(
            Envelope {
                payload: Some(
                    Payload::ConnectResponse(
                        ConnectResponse { accepted, session_token: token, error_message: err },
                    ),
                ),
            },
        )
    }
}

/// Handles a connection request (JSON or binary alike).
fn connect_request(
    registry: &mut SessionRegistry,
    conn: &mut Connection,
    target_host_id: String,
    password: &str,
    viewer_session_id: String,
    now: u64,
    token: String,
    json: bool,
) -> (out: Vec<Outgoing>)
    ensures
        connect_step(
            *old(registry),
            *final(registry),
            *old(conn),
            *final(conn),
            target_host_id,
            password@,
            viewer_session_id,
            now,
            token,
            json,
            out@,
        ),
{
    let ghost r0 = *registry;
    let ghost c0 = *conn;
    registry.register_viewer(viewer_session_id.clone(), conn.id);
    conn.this_viewer_id = Some(viewer_session_id.clone());
    if registry.check_rate_limit_at(target_host_id.as_str(), now) {
        let f = connect_reply(json, false, String::new(), "Too many failed attempts. Please wait 10 minutes.".to_string());
        return vec![Outgoing { to: conn.id, frame: f }];
    }
    match registry.get_host(target_host_id.as_str()) {
        Some(host) => {
            if verify_password(password, host.password_hash.as_str()) {
                registry.reset_failed_attempts(target_host_id.as_str());
                let t = registry.create_session_with_token(
                    target_host_id,
                    viewer_session_id.clone(),
                    token,
                );
                let f = connect_reply(json, true, t, String::new());
                let incoming = OutFrame::Proto(
                    Envelope {
                        payload: Some(
                            Payload::IncomingConnection(IncomingConnection { viewer_session_id }),
                        ),
                    },
                );
                vec![Outgoing { to: conn.id, frame: f }, Outgoing { to: host.client, frame: incoming }]
            } else {
                registry.record_failed_attempt_at(target_host_id.as_str(), now);
                let f = connect_reply(json, false, String::new(), "Invalid password".to_string());
                vec![Outgoing { to: conn.id, frame: f }]
            }
        },
        None => {
            let f = connect_reply(json, false, String::new(), "Host not found or offline".to_string());
            vec![Outgoing { to: conn.id, frame: f }]
        },
    }
}

/// Relays `frame` to the other party of the session; a failed relay sends nothing.
fn relay_or_drop(registry: &SessionRegistry, token: &str, sender_is_host: bool, frame: OutFrame) -> (out: Vec<Outgoing>)
    ensures
        match peer_of(registry.hosts(), registry.viewers(), registry.sessions(), token@, sender_is_host) {
            Some(peer) => out@ == seq![Outgoing { to: peer, frame }],
            None => out@.len() == 0,
        },
{
    match relay_message(registry, token, sender_is_host, frame) {
        Ok(o) => vec![o],
        Err(_) => Vec::new(),
    }
}

/// A JSON error reply on connection `c`.
pub open spec fn json_error_reply(c: Connection, out: Seq<Outgoing>, code: Seq<char>, message: Seq<char>) -> bool {
    reply_only(c, out, |f: OutFrame| is_json(f, error_text(code, message)))
}

/// The string member `key` of a payload, or the empty string.
pub open spec fn str_or_empty(p: Seq<(String, JsonValue)>, key: Seq<char>) -> Seq<char> {
    match as_str(member(p, key)) {
        Some(s) => s@,
        None => Seq::empty(),
    }
}

/// The password a JSON connection request carries: the string under
/// `password_hash`, the documented key; a request without it is read under
/// `password`; empty when neither is a string.
pub open spec fn connect_password(p: Seq<(String, JsonValue)>) -> Seq<char> {
    match as_str(member(p, "password_hash"@)) {
        Some(s) => s@,
        None => str_or_empty(p, "password"@),
    }
}

/// A registration of `host_id` with a password hash whose text is
/// `password_hash` on connection `c0`, acknowledged on that connection.
pub open spec fn register_step(
    r0: SessionRegistry,
    r1: SessionRegistry,
    c0: Connection,
    c1: Connection,
    host_id: String,
    password_hash: Seq<char>,
    json: bool,
    out: Seq<Outgoing>,
) -> bool {
    let e = r1.hosts()[host_id@];
    &&& r1.hosts() == r0.hosts().insert(host_id@, e)
    &&& e.host_id == host_id && e.password_hash@ == password_hash && e.client == c0.id
    &&& e.failed_attempts == 0 && e.blocked_until is None
    &&& r1.viewers() == r0.viewers()
    &&& r1.sessions() == r0.sessions()
    &&& c1 == Connection { this_host_id: Some(host_id), ..c0 }
    &&& reply_only(c0, out, |f: OutFrame| is_register_ack(f, json, host_id@))
}

/// What a JSON message from a viewer does, with the clock reading `now` and
/// `token` as the token of a session it might open.
pub open spec fn json_step(
    r0: SessionRegistry,
    r1: SessionRegistry,
    c0: Connection,
    c1: Connection,
    msg: JsonMessage,
    now: u64,
    token: String,
    out: Seq<Outgoing>,
) -> bool {
    let t = msg.msg_type@;
    let p = msg.payload@;
    let from_host = c0.this_host_id is Some;
    let session = str_or_empty(p, "session_token"@);
    if t == "connect_request"@ {
        match as_str(member(p, "target_host_id"@)) {
            None => unchanged(r0, r1, c0, c1) && json_error_reply(
                c0,
                out,
                "MISSING_FIELD"@,
                "target_host_id is required"@,
            ),
            Some(target) => match as_str(member(p, "viewer_session_id"@)) {
                None => unchanged(r0, r1, c0, c1) && json_error_reply(
                    c0,
                    out,
                    "MISSING_FIELD"@,
                    "viewer_session_id is required"@,
                ),
                Some(viewer) => connect_step(
                    r0,
                    r1,
                    c0,
                    c1,
                    target,
                    connect_password(p),
                    viewer,
                    now,
                    token,
                    true,
                    out,
                ),
            },
        }
    } else if t == "sdp_offer"@ {
        unchanged(r0, r1, c0, c1) && relayed(
            r0,
            session,
            from_host,
            out,
            |f: OutFrame| is_sdp_offer(f, str_or_empty(p, "sdp"@), session),
        )
    } else if t == "sdp_answer"@ {
        unchanged(r0, r1, c0, c1) && relayed(
            r0,
            session,
            from_host,
            out,
            |f: OutFrame| is_sdp_answer(f, str_or_empty(p, "sdp"@), session),
        )
    } else if t == "ice_candidate"@ {
        let index = match as_i64(member(p, "sdp_mline_index"@)) {
            Some(n) => n,
            None => 0,
        };
        unchanged(r0, r1, c0, c1) && relayed(
            r0,
            session,
            from_host,
            out,
            |f: OutFrame|
                is_ice(
                    f,
                    str_or_empty(p, "candidate"@),
                    str_or_empty(p, "sdp_mid"@),
                    index as i32,
                    session,
                ),
        )
    } else if t == "ping"@ {
        let ts = match as_u64(member(p, "timestamp_ms"@)) {
            Some(n) => n,
            None => 0,
        };
        unchanged(r0, r1, c0, c1) && reply_only(c0, out, |f: OutFrame| is_json(f, pong_text(ts)))
    } else if t == "register_host"@ {
        match as_str(member(p, "host_id"@)) {
            None => unchanged(r0, r1, c0, c1) && json_error_reply(
                c0,
                out,
                "MISSING_FIELD"@,
                "host_id is required"@,
            ),
            Some(h) => register_step(r0, r1, c0, c1, h, str_or_empty(p, "password_hash"@), true, out),
        }
    } else {
        unchanged(r0, r1, c0, c1) && json_error_reply(
            c0,
            out,
            "UNKNOWN_TYPE"@,
            "Unknown message type: "@ + t,
        )
    }
}

fn json_error_out(conn: &Connection, code: &str, message: String) -> (out: Vec<Outgoing>)
    ensures
        json_error_reply(*conn, out@, code@, message@),
{
    vec![Outgoing { to: conn.id, frame: OutFrame::Json(json_error(code.to_string(), message)) }]
}

fn register_host_request(
    registry: &mut SessionRegistry,
    conn: &mut Connection,
    host_id: String,
    password_hash: String,
    json: bool,
) -> (out: Vec<Outgoing>)
    ensures
        register_step(
            *old(registry),
            *final(registry),
            *old(conn),
            *final(conn),
            host_id,
            password_hash@,
            json,
            out@,
        ),
{
    registry.register_host(host_id.clone(), password_hash, conn.id);
    conn.this_host_id = Some(host_id.clone());
    let f = if json {
        OutFrame::Json(json_register_ack(host_id, true))
    } else {
        OutFrame::Proto(
            Envelope { payload: Some(Payload::RegisterAck(RegisterAck { host_id, success: true })) },
        )
    };
    vec![Outgoing { to: conn.id, frame: f }]
}

/// Handles a JSON message with the clock reading `now`; `token` names the
/// session a successful connection request opens.
pub fn handle_json_message_at(
    msg: JsonMessage,
    conn: &mut Connection,
    registry: &mut SessionRegistry,
    now: u64,
    token: String,
) -> (out: Vec<Outgoing>)
    ensures
        json_step(*old(registry), *final(registry), *old(conn), *final(conn), msg, now, token, out@),
{
    let ghost m = msg;
    let t = msg.msg_type.as_str();
    let p = &msg.payload;
    let from_host = conn.this_host_id.is_some();
    if str_eq(t, "connect_request") {
        proof { reveal_strlit("connect_request"); }
        let target = match payload_str(p, "target_host_id") {
            Some(v) => v,
            None => {
                return json_error_out(conn, "MISSING_FIELD", "target_host_id is required".to_string());
            },
        };
        let password = match payload_str(p, "password_hash") {
            Some(h) => h,
            None => payload_str_or_empty(p, "password"),
        };
        let viewer = match payload_str(p, "viewer_session_id") {
            Some(v) => v,
            None => {
                return json_error_out(conn, "MISSING_FIELD", "viewer_session_id is required".to_string());
            },
        };
        connect_request(registry, conn, target, password.as_str(), viewer, now, token, true)
    } else if str_eq(t, "sdp_offer") {
        let sdp = payload_str_or_empty(p, "sdp");
        let session = payload_str_or_empty(p, "session_token");
        let f = OutFrame::Proto(
            Envelope { payload: Some(Payload::SdpOffer(SdpOffer { sdp, session_token: session.clone() })) },
        );
        relay_or_drop(registry, session.as_str(), from_host, f)
    } else if str_eq(t, "sdp_answer") {
        let sdp = payload_str_or_empty(p, "sdp");
        let session = payload_str_or_empty(p, "session_token");
        let f = OutFrame::Proto(
            Envelope { payload: Some(Payload::SdpAnswer(SdpAnswer { sdp, session_token: session.clone() })) },
        );
        relay_or_drop(registry, session.as_str(), from_host, f)
    } else if str_eq(t, "ice_candidate") {
        let candidate = payload_str_or_empty(p, "candidate");
        let sdp_mid = payload_str_or_empty(p, "sdp_mid");
        let index_wide = payload_i64_or_zero(p, "sdp_mline_index");
        let sdp_mline_index = #[verifier::truncate] (index_wide as i32);
        let session = payload_str_or_empty(p, "session_token");
        let f = OutFrame::Proto(
            Envelope {
                payload: Some(
                    Payload::IceCandidate(
                        IceCandidate { candidate, sdp_mid, sdp_mline_index, session_token: session.clone() },
                    ),
                ),
            },
        );
        relay_or_drop(registry, session.as_str(), from_host, f)
    } else if str_eq(t, "ping") {
        let ts = payload_u64_or_zero(p, "timestamp_ms");
        vec![Outgoing { to: conn.id, frame: OutFrame::Json(json_pong(ts)) }]
    } else if str_eq(t, "register_host") {
        let host_id = match payload_str(p, "host_id") {
            Some(v) => v,
            None => {
                return json_error_out(conn, "MISSING_FIELD", "host_id is required".to_string());
            },
        };
        let password_hash = payload_str_or_empty(p, "password_hash");
        register_host_request(registry, conn, host_id, password_hash, true)
    } else {
        let mut text = "Unknown message type: ".to_string();
        text.append(t);
        json_error_out(conn, "UNKNOWN_TYPE", text)
    }
}

/// Handles a JSON message from a client, reading the clock and drawing a
/// random token for a session it might open.
pub fn handle_json_message(msg: JsonMessage, conn: &mut Connection, registry: &mut SessionRegistry) -> (out: Vec<Outgoing>)
    ensures
        exists|now: u64, token: String|
            is_uuid_v4_text(token@) && #[trigger] json_step(
                *old(registry),
                *final(registry),
                *old(conn),
                *final(conn),
                msg,
                now,
                token,
                out@,
            ),
        json_handled(*old(registry), *final(registry), *old(conn), *final(conn), msg, out@),
{
    let ghost m = msg;
    let now = registry.clock_ms();
    let token = random_uuid();
    let ghost r0 = *registry;
    let ghost c0 = *conn;
    let out = handle_json_message_at(msg, conn, registry, now, token);
    registry.advance_clock(now);
    proof {
        assert(json_step(r0, *registry, c0, *conn, m, now, token, out@));
    }
    out
}

/// A message handled by the server: the clock read no less than at the
/// message before and at most `CLOCK_CAP`, it now reads that, and the
/// message was handled at that reading, under a fresh random token.
pub open spec fn json_handled(
    r0: SessionRegistry,
    r1: SessionRegistry,
    c0: Connection,
    c1: Connection,
    msg: JsonMessage,
    out: Seq<Outgoing>,
) -> bool {
    exists|now: u64, token: String|
        r0.clock_floor() <= now <= CLOCK_CAP && r1.clock_floor() == now && is_uuid_v4_text(token@)
            && #[trigger] json_step(r0, r1, c0, c1, msg, now, token, out)
}

/// An envelope handled by the server, as for `json_handled`.
pub open spec fn proto_handled(
    r0: SessionRegistry,
    r1: SessionRegistry,
    c0: Connection,
    c1: Connection,
    payload: Payload,
    out: Seq<Outgoing>,
) -> bool {
    exists|now: u64, token: String|
        r0.clock_floor() <= now <= CLOCK_CAP && r1.clock_floor() == now && is_uuid_v4_text(token@)
            && #[trigger] proto_step(r0, r1, c0, c1, payload, now, token, out)
}


/// `f` answers a ping with the same timestamp.
pub open spec fn is_pong(f: OutFrame, ts: u64) -> bool {
    f matches OutFrame::Proto(Envelope { payload: Some(Payload::Pong(q)) }) && q.timestamp_ms == ts
}

/// What an envelope payload from a client does, with the clock reading
/// `now` and `token` as the token of a session it might open. Offers,
/// answers and candidates from a host go to the viewer as JSON; those from a
/// viewer go to the host as envelopes.
pub open spec fn proto_step(
    r0: SessionRegistry,
    r1: SessionRegistry,
    c0: Connection,
    c1: Connection,
    payload: Payload,
    now: u64,
    token: String,
    out: Seq<Outgoing>,
) -> bool {
    let from_host = c0.this_host_id is Some;
    match payload {
        Payload::RegisterHost(reg) => register_step(
            r0,
            r1,
            c0,
            c1,
            reg.host_id,
            reg.password_hash@,
            false,
            out,
        ),
        Payload::ConnectRequest(req) => connect_step(
            r0,
            r1,
            c0,
            c1,
            req.target_host_id,
            req.password_hash@,
            req.viewer_session_id,
            now,
            token,
            false,
            out,
        ),
        Payload::SdpOffer(o) => unchanged(r0, r1, c0, c1) && relayed(
            r0,
            o.session_token@,
            from_host,
            out,
            |f: OutFrame|
                if from_host {
                    is_json(f, sdp_text("sdp_offer"@, o.sdp@, o.session_token@))
                } else {
                    is_sdp_offer(f, o.sdp@, o.session_token@)
                },
        ),
        Payload::SdpAnswer(a) => unchanged(r0, r1, c0, c1) && relayed(
            r0,
            a.session_token@,
            from_host,
            out,
            |f: OutFrame|
                if from_host {
                    is_json(f, sdp_text("sdp_answer"@, a.sdp@, a.session_token@))
                } else {
                    is_sdp_answer(f, a.sdp@, a.session_token@)
                },
        ),
        Payload::IceCandidate(c) => unchanged(r0, r1, c0, c1) && relayed(
            r0,
            c.session_token@,
            from_host,
            out,
            |f: OutFrame|
                if from_host {
                    is_json(
                        f,
                        ice_candidate_text(c.candidate@, c.sdp_mid@, c.sdp_mline_index, c.session_token@),
                    )
                } else {
                    is_ice(f, c.candidate@, c.sdp_mid@, c.sdp_mline_index, c.session_token@)
                },
        ),
        Payload::Ping(p) => unchanged(r0, r1, c0, c1) && reply_only(
            c0,
            out,
            |f: OutFrame| is_pong(f, p.timestamp_ms),
        ),
        _ => unchanged(r0, r1, c0, c1) && out.len() == 0,
    }
}

/// Handles an envelope payload with the clock reading `now`; `token` names
/// the session a successful connection request opens.
pub fn handle_proto_payload_at(
    payload: Payload,
    conn: &mut Connection,
    registry: &mut SessionRegistry,
    now: u64,
    token: String,
) -> (out: Vec<Outgoing>)
    ensures
        proto_step(*old(registry), *final(registry), *old(conn), *final(conn), payload, now, token, out@),
{
    let from_host = conn.this_host_id.is_some();
    match payload {
        Payload::RegisterHost(reg) => {
            register_host_request(registry, conn, reg.host_id, reg.password_hash, false)
        },
        Payload::ConnectRequest(req) => {
            connect_request(
                registry,
                conn,
                req.target_host_id,
                req.password_hash.as_str(),
                req.viewer_session_id,
                now,
                token,
                false,
            )
        },
        Payload::SdpOffer(offer) => {
            let session = offer.session_token.clone();
            let f = if from_host {
                OutFrame::Json(json_sdp_offer(offer.sdp, offer.session_token))
            } else {
                OutFrame::Proto(Envelope { payload: Some(Payload::SdpOffer(offer)) })
            };
            relay_or_drop(registry, session.as_str(), from_host, f)
        },
        Payload::SdpAnswer(answer) => {
            let session = answer.session_token.clone();
            let f = if from_host {
                OutFrame::Json(json_sdp_answer(answer.sdp, answer.session_token))
            } else {
                OutFrame::Proto(Envelope { payload: Some(Payload::SdpAnswer(answer)) })
            };
            relay_or_drop(registry, session.as_str(), from_host, f)
        },
        Payload::IceCandidate(ice) => {
            let session = ice.session_token.clone();
            let f = if from_host {
                OutFrame::Json(
                    json_ice_candidate(ice.candidate, ice.sdp_mid, ice.sdp_mline_index, ice.session_token),
                )
            } else {
                OutFrame::Proto(Envelope { payload: Some(Payload::IceCandidate(ice)) })
            };
            relay_or_drop(registry, session.as_str(), from_host, f)
        },
        Payload::Ping(ping) => {
            let pong = Envelope { payload: Some(Payload::Pong(Pong { timestamp_ms: ping.timestamp_ms })) };
            vec![Outgoing { to: conn.id, frame: OutFrame::Proto(pong) }]
        },
        _ => Vec::new(),
    }
}

/// Handles an envelope payload from a client, reading the clock and drawing
/// a random token for a session it might open.
pub fn handle_proto_payload(payload: Payload, conn: &mut Connection, registry: &mut SessionRegistry) -> (out: Vec<Outgoing>)
    ensures
        exists|now: u64, token: String|
            is_uuid_v4_text(token@) && #[trigger] proto_step(
                *old(registry),
                *final(registry),
                *old(conn),
                *final(conn),
                payload,
                now,
                token,
                out@,
            ),
        proto_handled(*old(registry), *final(registry), *old(conn), *final(conn), payload, out@),
{
    let ghost p = payload;
    let now = registry.clock_ms();
    let token = random_uuid();
    let ghost r0 = *registry;
    let ghost c0 = *conn;
    let out = handle_proto_payload_at(payload, conn, registry, now, token);
    registry.advance_clock(now);
    proof {
        assert(proto_step(r0, *registry, c0, *conn, p, now, token, out@));
    }
    out
}

/// The connection after it sent text.
pub open spec fn as_json_client(c: Connection) -> Connection {
    Connection { use_json: true, ..c }
}

/// A text frame arrived: the connection now speaks JSON. A frame that is
/// not a JSON message (`Err` carries the parser's description) is answered
/// with a `PARSE_ERROR`.
pub fn receive_text(
    parsed: Result<JsonMessage, String>,
    conn: &mut Connection,
    registry: &mut SessionRegistry,
) -> (out: Vec<Outgoing>)
    ensures
        final(conn).use_json,
        match parsed {
            Ok(msg) => exists|now: u64, token: String|
                #[trigger] json_step(
                    *old(registry),
                    *final(registry),
                    as_json_client(*old(conn)),
                    *final(conn),
                    msg,
                    now,
                    token,
                    out@,
                ),
            Err(e) => unchanged(
                *old(registry),
                *final(registry),
                as_json_client(*old(conn)),
                *final(conn),
            ) && json_error_reply(*old(conn), out@, "PARSE_ERROR"@, "Invalid JSON: "@ + e@),
        },
{
    conn.use_json = true;
    match parsed {
        Ok(msg) => handle_json_message(msg, conn, registry),
        Err(e) => {
            let mut text = "Invalid JSON: ".to_string();
            text.append(e.as_str());
            json_error_out(conn, "PARSE_ERROR", text)
        },
    }
}

/// A binary frame arrived, decoded into an envelope (`None` when it did not
/// decode). Undecodable frames and empty envelopes are ignored.
pub fn receive_binary(
    decoded: Option<Envelope>,
    conn: &mut Connection,
    registry: &mut SessionRegistry,
) -> (out: Vec<Outgoing>)
    ensures
        match decoded {
            Some(Envelope { payload: Some(p) }) => exists|now: u64, token: String|
                proto_step(*old(registry), *final(registry), *old(conn), *final(conn), p, now, token, out@),
            _ => unchanged(*old(registry), *final(registry), *old(conn), *final(conn)) && out@.len() == 0,
        },
{
    match decoded {
        Some(envelope) => match envelope.payload {
            Some(p) => handle_proto_payload(p, conn, registry),
            None => Vec::new(),
        },
        None => Vec::new(),
    }
}

/// The connection closed: the host it registered and the viewer it
/// connected as are forgotten, and the viewer's sessions with them.
pub fn on_disconnect(conn: &Connection, registry: &mut SessionRegistry)
    ensures
        final(registry).hosts() == (match conn.this_host_id {
            Some(h) => old(registry).hosts().remove(h@),
            None => old(registry).hosts(),
        }),
        final(registry).viewers() == (match conn.this_viewer_id {
            Some(v) => old(registry).viewers().remove(v@),
            None => old(registry).viewers(),
        }),
        final(registry).sessions() == (match conn.this_viewer_id {
            Some(v) => sessions_without_viewer(old(registry).sessions(), v@),
            None => old(registry).sessions(),
        }),
{
    match &conn.this_host_id {
        Some(h) => registry.remove_host(h.as_str()),
        None => {},
    }
    match &conn.this_viewer_id {
        Some(v) => registry.remove_viewer(v.as_str()),
        None => {},
    }
}

/// A connection without traffic for this long is closed: five minutes.
pub const IDLE_TIMEOUT_MS: u64 = 300_000;

/// A JSON client is warned after this long without traffic: 30 s before the timeout.
pub const IDLE_WARNING_MS: u64 = 270_000;

/// What the idle timer calls for.
pub enum IdleAction {
    /// Keep waiting.
    Wait,
    /// Warn the client that the session is about to expire.
    Warn,
    /// Close the connection.
    Expire,
}

/// The action after `idle_ms` milliseconds without traffic, `warned` telling
/// whether the warning went out already.
pub open spec fn idle_action_spec(idle_ms: u64, warned: bool) -> IdleAction {
    if idle_ms >= IDLE_TIMEOUT_MS {
        IdleAction::Expire
    } else if idle_ms >= IDLE_WARNING_MS && !warned {
        IdleAction::Warn
    } else {
        IdleAction::Wait
    }
}

/// The idle timer's decision.
pub fn idle_action(idle_ms: u64, warned: bool) -> (a: IdleAction)
    ensures
        a == idle_action_spec(idle_ms, warned),
{
    if idle_ms >= IDLE_TIMEOUT_MS {
        IdleAction::Expire
    } else if idle_ms >= IDLE_WARNING_MS && !warned {
        IdleAction::Warn
    } else {
        IdleAction::Wait
    }
}

/// What the idle timer sends: JSON clients get a warning 30 s ahead and a
/// `session_expired` notice; binary clients get nothing.
pub fn idle_frames(conn: &Connection, action: &IdleAction) -> (out: Vec<Outgoing>)
    ensures
        !conn.use_json || *action is Wait ==> out@.len() == 0,
        conn.use_json && *action is Warn ==> reply_only(
            *conn,
            out@,
            |f: OutFrame| is_json(f, timeout_warning_text(30)),
        ),
        conn.use_json && *action is Expire ==> reply_only(
            *conn,
            out@,
            |f: OutFrame| is_json(f, session_expired_text("idle_timeout"@)),
        ),
{
    if !conn.use_json {
        return Vec::new();
    }
    match action {
        IdleAction::Wait => Vec::new(),
        IdleAction::Warn => vec![Outgoing { to: conn.id, frame: OutFrame::Json(json_session_timeout_warning(30)) }],
        IdleAction::Expire => {
            let reason = "idle_timeout".to_string();
            vec![Outgoing { to: conn.id, frame: OutFrame::Json(json_session_expired(reason)) }]
        },
    }
}

/// Law: a blocked host refuses every connection request while the block
/// lasts, whatever password comes with it.
pub proof fn law_blocked_host_refuses(
    hosts: Map<Seq<char>, crate::session_registry::HostEntry>,
    target: Seq<char>,
    password: Seq<char>,
    now: u64,
)
    requires
        hosts.contains_key(target),
        is_blocked(hosts[target], now),
    ensures
        connect_outcome(hosts, target, password, now) is Blocked,
{
}

/// Law: only the right password opens a session; every other outcome leaves
/// the sessions as they were.
pub proof fn law_session_needs_password(
    r0: SessionRegistry,
    r1: SessionRegistry,
    c0: Connection,
    c1: Connection,
    target: String,
    password: Seq<char>,
    viewer: String,
    now: u64,
    token: String,
    json: bool,
    out: Seq<Outgoing>,
)
    requires
        connect_step(r0, r1, c0, c1, target, password, viewer, now, token, json, out),
    ensures
        r1.sessions() != r0.sessions() ==> r0.hosts().contains_key(target@) && phc_verifies(
            password,
            r0.hosts()[target@].password_hash@,
        ) && !is_blocked(r0.hosts()[target@], now),
{
}

/// Law: once a connection request is accepted, the session routes each
/// party's messages to the other: the host's to the viewer's connection and
/// the viewer's to the host's.
pub proof fn law_accepted_session_routes(
    r0: SessionRegistry,
    r1: SessionRegistry,
    c0: Connection,
    c1: Connection,
    target: String,
    password: Seq<char>,
    viewer: String,
    now: u64,
    token: String,
    json: bool,
    out: Seq<Outgoing>,
)
    requires
        connect_step(r0, r1, c0, c1, target, password, viewer, now, token, json, out),
        connect_outcome(r0.hosts(), target@, password, now) is Accepted,
    ensures
        peer_of(r1.hosts(), r1.viewers(), r1.sessions(), token@, true) == Some(c0.id),
        peer_of(r1.hosts(), r1.viewers(), r1.sessions(), token@, false) == Some(
            r0.hosts()[target@].client,
        ),
        out[0].to == c0.id,
        out[1].to == r0.hosts()[target@].client,
{
}

/// Law: the idle warning comes before the timeout, and a connection idle
/// for the timeout is always closed.
pub proof fn law_idle_warning_precedes_timeout(idle_ms: u64, warned: bool)
    ensures
        idle_ms < IDLE_WARNING_MS ==> idle_action_spec(idle_ms, warned) is Wait,
        idle_ms >= IDLE_TIMEOUT_MS ==> idle_action_spec(idle_ms, warned) is Expire,
        IDLE_WARNING_MS < IDLE_TIMEOUT_MS,
        idle_action_spec(idle_ms, true) !is Warn,
{
}

/// Law: a host that registered the hash of a password admits a viewer
/// presenting that password, as long as it is not blocked.
pub proof fn law_registered_password_admits(
    hosts: Map<Seq<char>, crate::session_registry::HostEntry>,
    target: Seq<char>,
    password: Seq<char>,
    now: u64,
)
    requires
        hosts.contains_key(target),
        phc_verifies(password, hosts[target].password_hash@),
        !is_blocked(hosts[target], now),
    ensures
        connect_outcome(hosts, target, password, now) is Accepted,
{
}

/// Law: right after a host registers the hash of a password, a connection
/// request presenting that password is accepted: a fresh registration is
/// never blocked.
pub proof fn law_register_then_connect(
    r0: SessionRegistry,
    r1: SessionRegistry,
    c0: Connection,
    c1: Connection,
    host_id: String,
    password_hash: Seq<char>,
    json: bool,
    out: Seq<Outgoing>,
    password: Seq<char>,
    now: u64,
)
    requires
        register_step(r0, r1, c0, c1, host_id, password_hash, json, out),
        phc_verifies(password, password_hash),
    ensures
        connect_outcome(r1.hosts(), host_id@, password, now) is Accepted,
        r1.hosts()[host_id@].client == c0.id,
{
}

/// `msg` is a viewer's connection request to the host `h`, naming a viewer.
pub open spec fn is_connect_to(msg: JsonMessage, h: Seq<char>) -> bool {
    &&& msg.msg_type@ == "connect_request"@
    &&& as_str(member(msg.payload@, "target_host_id"@)) matches Some(t) && t@ == h
    &&& as_str(member(msg.payload@, "viewer_session_id"@)) is Some
}

/// The JSON text of a refused connection request.
pub open spec fn refusal_json(err: Seq<char>) -> Seq<char> {
    json_object(
        seq![
            ("type"@, json_str("connect_response"@)),
            (
                "payload"@,
                json_object(
                    seq![
                        ("accepted"@, json_bool(false)),
                        ("session_token"@, json_str(Seq::empty())),
                        ("error_message"@, json_str(err)),
                    ],
                ),
            ),
        ],
    )
}

/// One connection request to a registered host `h`, handled by the server:
/// the clock does not go back; the host's entry after it, at the reading
/// it was handled at; a blocked host's refusal.
proof fn lemma_connect_handled(
    r0: SessionRegistry,
    r1: SessionRegistry,
    c0: Connection,
    c1: Connection,
    msg: JsonMessage,
    out: Seq<Outgoing>,
    h: Seq<char>,
)
    requires
        json_handled(r0, r1, c0, c1, msg, out),
        is_connect_to(msg, h),
        r0.hosts().contains_key(h),
    ensures
        r0.clock_floor() <= r1.clock_floor() <= CLOCK_CAP,
        r1.hosts().contains_key(h),
        ({
            let now = r1.clock_floor();
            let e = r0.hosts()[h];
            if is_blocked(e, now) {
                &&& r1.hosts()[h] == e
                &&& r1.sessions() == r0.sessions()
                &&& out.len() == 1
                &&& out[0].to == c0.id
                &&& out[0].frame matches OutFrame::Json(txt) && txt@ == refusal_json(
                    "Too many failed attempts. Please wait 10 minutes."@,
                )
            } else if !phc_verifies(connect_password(msg.payload@), e.password_hash@) {
                r1.hosts()[h] == after_failure(e, now)
            } else {
                r1.hosts()[h] == after_success(e)
            }
        }),
{
    let (now, token) = choose|now: u64, token: String|
        r0.clock_floor() <= now <= CLOCK_CAP && r1.clock_floor() == now && is_uuid_v4_text(token@)
            && #[trigger] json_step(r0, r1, c0, c1, msg, now, token, out);
    let target = as_str(member(msg.payload@, "target_host_id"@))->0;
    let viewer = as_str(member(msg.payload@, "viewer_session_id"@))->0;
    assert(connect_step(r0, r1, c0, c1, target, connect_password(msg.payload@), viewer, now, token, true, out));
    reveal_strlit("Too many failed attempts. Please wait 10 minutes.");
}

/// Request `i` of a run of connection requests to `h`, as in
/// `law_five_failures_refuse_sixth`.
proof fn lemma_request_in_run(
    rs: Seq<SessionRegistry>,
    cs: Seq<Connection>,
    msgs: Seq<JsonMessage>,
    outs: Seq<Seq<Outgoing>>,
    h: Seq<char>,
    i: int,
)
    requires
        0 <= i < 6,
        rs.len() == 7,
        cs.len() == 7,
        msgs.len() == 6,
        outs.len() == 6,
        rs[i].hosts().contains_key(h),
        forall|j: int| 0 <= j < 6 ==> #[trigger] json_handled(rs[j], rs[j + 1], cs[j], cs[j + 1], msgs[j], outs[j]),
        forall|j: int| 0 <= j < 6 ==> #[trigger] is_connect_to(msgs[j], h),
    ensures
        rs[i].clock_floor() <= rs[i + 1].clock_floor() <= CLOCK_CAP,
        rs[i + 1].hosts().contains_key(h),
        ({
            let now = rs[i + 1].clock_floor();
            let e = rs[i].hosts()[h];
            if is_blocked(e, now) {
                &&& rs[i + 1].hosts()[h] == e
                &&& rs[i + 1].sessions() == rs[i].sessions()
                &&& outs[i].len() == 1
                &&& outs[i][0].to == cs[i].id
                &&& outs[i][0].frame matches OutFrame::Json(txt) && txt@ == refusal_json(
                    "Too many failed attempts. Please wait 10 minutes."@,
                )
            } else if !phc_verifies(connect_password(msgs[i].payload@), e.password_hash@) {
                rs[i + 1].hosts()[h] == after_failure(e, now)
            } else {
                rs[i + 1].hosts()[h] == after_success(e)
            }
        }),
{
    assert(json_handled(rs[i], rs[i + 1], cs[i], cs[i + 1], msgs[i], outs[i]));
    assert(is_connect_to(msgs[i], h));
    lemma_connect_handled(rs[i], rs[i + 1], cs[i], cs[i + 1], msgs[i], outs[i], h);
}

/// Law: five wrong passwords in a row block a host. When a host with no
/// failed attempts and no block gets six connection requests through the
/// server, the first five with a password its hash does not accept, the
/// sixth, if it comes within ten minutes of the fifth on the server's
/// clock, is refused with "Too many failed attempts. Please wait 10
/// minutes." whatever its password, and opens no session.
pub proof fn law_five_failures_refuse_sixth(
    rs: Seq<SessionRegistry>,
    cs: Seq<Connection>,
    msgs: Seq<JsonMessage>,
    outs: Seq<Seq<Outgoing>>,
    h: Seq<char>,
)
    requires
        rs.len() == 7,
        cs.len() == 7,
        msgs.len() == 6,
        outs.len() == 6,
        rs[0].hosts().contains_key(h),
        rs[0].hosts()[h].failed_attempts == 0,
        rs[0].hosts()[h].blocked_until is None,
        forall|i: int| 0 <= i < 6 ==> #[trigger] json_handled(rs[i], rs[i + 1], cs[i], cs[i + 1], msgs[i], outs[i]),
        forall|i: int| 0 <= i < 6 ==> #[trigger] is_connect_to(msgs[i], h),
        forall|i: int|
            0 <= i < 5 ==> !phc_verifies(
                connect_password(#[trigger] msgs[i].payload@),
                rs[0].hosts()[h].password_hash@,
            ),
        rs[6].clock_floor() < rs[5].clock_floor() + BLOCK_MS,
    ensures
        outs[5].len() == 1,
        outs[5][0].to == cs[5].id,
        outs[5][0].frame matches OutFrame::Json(txt) && txt@ == refusal_json(
            "Too many failed attempts. Please wait 10 minutes."@,
        ),
        rs[6].sessions() == rs[5].sessions(),
        rs[6].hosts()[h].blocked_until == Some((rs[5].clock_floor() + BLOCK_MS) as u64),
{
    let e0 = rs[0].hosts()[h];
    lemma_request_in_run(rs, cs, msgs, outs, h, 0);
    let e1 = rs[1].hosts()[h];
    assert(e1.failed_attempts == 1 && e1.blocked_until is None && e1.password_hash == e0.password_hash);
    lemma_request_in_run(rs, cs, msgs, outs, h, 1);
    let e2 = rs[2].hosts()[h];
    assert(e2.failed_attempts == 2 && e2.blocked_until is None && e2.password_hash == e0.password_hash);
    lemma_request_in_run(rs, cs, msgs, outs, h, 2);
    let e3 = rs[3].hosts()[h];
    assert(e3.failed_attempts == 3 && e3.blocked_until is None && e3.password_hash == e0.password_hash);
    lemma_request_in_run(rs, cs, msgs, outs, h, 3);
    let e4 = rs[4].hosts()[h];
    assert(e4.failed_attempts == 4 && e4.blocked_until is None && e4.password_hash == e0.password_hash);
    lemma_request_in_run(rs, cs, msgs, outs, h, 4);
    let e5 = rs[5].hosts()[h];
    let t5 = rs[5].clock_floor();
    assert(e5.blocked_until == Some(block_deadline(t5)));
    assert(block_deadline(t5) == t5 + BLOCK_MS);
    lemma_request_in_run(rs, cs, msgs, outs, h, 5);
    assert(is_blocked(e5, rs[6].clock_floor()));
}

/// The text of a JSON message of type `kind` whose payload has the given
/// members, in order.
pub open spec fn message_json(kind: Seq<char>, members: Seq<(Seq<char>, Seq<char>)>) -> Seq<char> {
    json_object(seq![("type"@, json_str(kind)), ("payload"@, json_object(members))])
}

/// The string member `key` of a payload as text; empty when it is missing
/// or not a string.
pub open spec fn string_member(p: Seq<(String, JsonValue)>, key: Seq<char>) -> Seq<char> {
    match member(p, key) {
        JsonValue::Str(s) => s@,
        _ => Seq::empty(),
    }
}

/// Law: an ICE candidate is relayed with every field in its place. From the
/// host it reaches the session's viewer as JSON whose members are, in this
/// order, `candidate` (the host's candidate text), `sdp_mid`,
/// `sdp_mline_index` and `session_token`; from a binary viewer it reaches
/// the host as an envelope with the same four fields.
pub proof fn law_ice_relay_keeps_fields(
    r0: SessionRegistry,
    r1: SessionRegistry,
    c0: Connection,
    c1: Connection,
    c: IceCandidate,
    now: u64,
    token: String,
    out: Seq<Outgoing>,
)
    requires
        proto_step(r0, r1, c0, c1, Payload::IceCandidate(c), now, token, out),
        peer_of(r0.hosts(), r0.viewers(), r0.sessions(), c.session_token@, c0.this_host_id is Some) is Some,
    ensures
        out.len() == 1,
        out[0].to == peer_of(r0.hosts(), r0.viewers(), r0.sessions(), c.session_token@, c0.this_host_id is Some)->0,
        c0.this_host_id is Some ==> (out[0].frame matches OutFrame::Json(txt) && txt@ == message_json(
            "ice_candidate"@,
            seq![
                ("candidate"@, json_str(c.candidate@)),
                ("sdp_mid"@, json_str(c.sdp_mid@)),
                ("sdp_mline_index"@, decimal_int(c.sdp_mline_index as int)),
                ("session_token"@, json_str(c.session_token@)),
            ],
        )),
        c0.this_host_id is None ==> (out[0].frame matches OutFrame::Proto(
            Envelope { payload: Some(Payload::IceCandidate(d)) },
        ) && d.candidate@ == c.candidate@ && d.sdp_mid@ == c.sdp_mid@ && d.sdp_mline_index
            == c.sdp_mline_index && d.session_token@ == c.session_token@),
{
}

/// Law: an SDP offer is relayed with its description and token in place:
/// from the host as JSON `{"type":"sdp_offer","payload":{"sdp":…,
/// "session_token":…}}`, from a binary viewer as an envelope.
pub proof fn law_sdp_offer_relay_keeps_fields(
    r0: SessionRegistry,
    r1: SessionRegistry,
    c0: Connection,
    c1: Connection,
    o: SdpOffer,
    now: u64,
    token: String,
    out: Seq<Outgoing>,
)
    requires
        proto_step(r0, r1, c0, c1, Payload::SdpOffer(o), now, token, out),
        peer_of(r0.hosts(), r0.viewers(), r0.sessions(), o.session_token@, c0.this_host_id is Some) is Some,
    ensures
        out.len() == 1,
        out[0].to == peer_of(r0.hosts(), r0.viewers(), r0.sessions(), o.session_token@, c0.this_host_id is Some)->0,
        c0.this_host_id is Some ==> (out[0].frame matches OutFrame::Json(txt) && txt@ == message_json(
            "sdp_offer"@,
            seq![("sdp"@, json_str(o.sdp@)), ("session_token"@, json_str(o.session_token@))],
        )),
        c0.this_host_id is None ==> (out[0].frame matches OutFrame::Proto(
            Envelope { payload: Some(Payload::SdpOffer(d)) },
        ) && d.sdp@ == o.sdp@ && d.session_token@ == o.session_token@),
{
}

/// Law: an SDP answer is relayed with its description and token in place,
/// as for offers.
pub proof fn law_sdp_answer_relay_keeps_fields(
    r0: SessionRegistry,
    r1: SessionRegistry,
    c0: Connection,
    c1: Connection,
    a: SdpAnswer,
    now: u64,
    token: String,
    out: Seq<Outgoing>,
)
    requires
        proto_step(r0, r1, c0, c1, Payload::SdpAnswer(a), now, token, out),
        peer_of(r0.hosts(), r0.viewers(), r0.sessions(), a.session_token@, c0.this_host_id is Some) is Some,
    ensures
        out.len() == 1,
        out[0].to == peer_of(r0.hosts(), r0.viewers(), r0.sessions(), a.session_token@, c0.this_host_id is Some)->0,
        c0.this_host_id is Some ==> (out[0].frame matches OutFrame::Json(txt) && txt@ == message_json(
            "sdp_answer"@,
            seq![("sdp"@, json_str(a.sdp@)), ("session_token"@, json_str(a.session_token@))],
        )),
        c0.this_host_id is None ==> (out[0].frame matches OutFrame::Proto(
            Envelope { payload: Some(Payload::SdpAnswer(d)) },
        ) && d.sdp@ == a.sdp@ && d.session_token@ == a.session_token@),
{
}

/// Law: a JSON viewer's ICE candidate reaches the host of its session as an
/// envelope whose candidate, sdp_mid and token are the payload's string
/// members of those names (empty when missing).
pub proof fn law_viewer_ice_reaches_host(
    r0: SessionRegistry,
    r1: SessionRegistry,
    c0: Connection,
    c1: Connection,
    msg: JsonMessage,
    now: u64,
    token: String,
    out: Seq<Outgoing>,
)
    requires
        json_step(r0, r1, c0, c1, msg, now, token, out),
        msg.msg_type@ == "ice_candidate"@,
        c0.this_host_id is None,
        peer_of(r0.hosts(), r0.viewers(), r0.sessions(), string_member(msg.payload@, "session_token"@), false) is Some,
    ensures
        out.len() == 1,
        out[0].frame matches OutFrame::Proto(Envelope { payload: Some(Payload::IceCandidate(d)) })
            && d.candidate@ == string_member(msg.payload@, "candidate"@)
            && d.sdp_mid@ == string_member(msg.payload@, "sdp_mid"@)
            && d.session_token@ == string_member(msg.payload@, "session_token"@),
{
    reveal_strlit("ice_candidate");
    reveal_strlit("connect_request");
    reveal_strlit("sdp_offer");
    reveal_strlit("sdp_answer");
    let p = msg.payload@;
    let session = str_or_empty(p, "session_token"@);
    assert(session == string_member(p, "session_token"@));
    assert(str_or_empty(p, "candidate"@) == string_member(p, "candidate"@));
    assert(str_or_empty(p, "sdp_mid"@) == string_member(p, "sdp_mid"@));
    assert("ice_candidate"@[0] != "connect_request"@[0]);
    assert("ice_candidate"@[0] != "sdp_offer"@[0]);
    assert("ice_candidate"@[0] != "sdp_answer"@[0]);
    let index = match as_i64(member(p, "sdp_mline_index"@)) {
        Some(n) => n,
        None => 0,
    };
    assert(relayed(
        r0,
        session,
        false,
        out,
        |f: OutFrame|
            is_ice(f, str_or_empty(p, "candidate"@), str_or_empty(p, "sdp_mid"@), index as i32, session),
    ));
}

/// Law: what a JSON viewer's connection request is answered, by outcome,
/// with every field in its place. Accepted: `accepted` true with the token
/// of the session opened and an empty error, and the host is told the
/// viewer's id. Refused: `accepted` false, no token, and the reason, "Too
/// many failed attempts. Please wait 10 minutes." for a blocked host,
/// "Host not found or offline" for an unknown one, "Invalid password" for
/// a wrong password.
pub proof fn law_connect_replies(
    r0: SessionRegistry,
    r1: SessionRegistry,
    c0: Connection,
    c1: Connection,
    target: String,
    password: Seq<char>,
    viewer: String,
    now: u64,
    token: String,
    out: Seq<Outgoing>,
)
    requires
        connect_step(r0, r1, c0, c1, target, password, viewer, now, token, true, out),
    ensures
        out.len() >= 1,
        out[0].to == c0.id,
        ({
            let o = connect_outcome(r0.hosts(), target@, password, now);
            let accepted = o is Accepted;
            let err: Seq<char> = match o {
                ConnectOutcome::Accepted => Seq::empty(),
                ConnectOutcome::Blocked => "Too many failed attempts. Please wait 10 minutes."@,
                ConnectOutcome::NoHost => "Host not found or offline"@,
                ConnectOutcome::WrongPassword => "Invalid password"@,
            };
            &&& out[0].frame matches OutFrame::Json(txt) && txt@ == message_json(
                "connect_response"@,
                seq![
                    ("accepted"@, json_bool(accepted)),
                    ("session_token"@, json_str(if accepted { token@ } else { Seq::empty() })),
                    ("error_message"@, json_str(err)),
                ],
            )
            &&& accepted ==> out.len() == 2 && out[1].to == r0.hosts()[target@].client && (out[1].frame matches OutFrame::Proto(
                Envelope { payload: Some(Payload::IncomingConnection(ic)) },
            ) && ic.viewer_session_id@ == viewer@)
            &&& !accepted ==> out.len() == 1
        }),
{
}

} // verus!
