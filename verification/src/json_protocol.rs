//! The JSON text protocol spoken by the viewer: the inbound message model and
//! the builders of every outbound message.
use crate::wire::{
    decimal, decimal_int, json_bool, json_object, json_str, member_texts, render_bool,
    render_i64, render_object, render_str, render_u64, str_eq,
};
use vstd::prelude::*;

verus! {

/// A JSON value as far as the protocol reads it: strings, booleans and
/// integers are kept; other values are only told apart.
pub enum JsonValue {
    Null,
    Bool(bool),
    Str(String),
    /// A non-negative integer.
    PosInt(u64),
    /// A negative integer.
    NegInt(i64),
    /// A number with a fraction or an exponent.
    Float,
    Array,
    Object,
}

/// A message from a viewer: `{"type": …, "payload": {…}}`. `payload` holds the
/// members of the payload object, each key once; it is empty when the payload
/// is not an object.
pub struct JsonMessage {
    pub msg_type: String,
    pub payload: Vec<(String, JsonValue)>,
}

/// The value of `key` in a list of members, `Null` when absent.
pub open spec fn member(ms: Seq<(String, JsonValue)>, key: Seq<char>) -> JsonValue
    decreases ms.len(),
{
    if ms.len() == 0 {
        JsonValue::Null
    } else if ms[0].0@ == key {
        ms[0].1
    } else {
        member(ms.drop_first(), key)
    }
}

/// `Value::as_str`.
pub open spec fn as_str(v: JsonValue) -> Option<String> {
    match v {
        JsonValue::Str(s) => Some(s),
        _ => None,
    }
}

/// `Value::as_u64`.
pub open spec fn as_u64(v: JsonValue) -> Option<u64> {
    match v {
        JsonValue::PosInt(n) => Some(n),
        _ => None,
    }
}

/// `Value::as_i64`.
pub open spec fn as_i64(v: JsonValue) -> Option<i64> {
    match v {
        JsonValue::PosInt(n) => if n <= i64::MAX {
            Some(n as i64)
        } else {
            None
        },
        JsonValue::NegInt(n) => Some(n),
        _ => None,
    }
}

/// Looks up a member of a payload.
pub fn payload_member<'a>(ms: &'a Vec<(String, JsonValue)>, key: &str) -> (r: &'a JsonValue)
    ensures
        *r == member(ms@, key@),
{
    let mut i: usize = 0;
    assert(ms@.skip(0) =~= ms@);
    while i < ms.len()
        invariant
            i <= ms.len(),
            member(ms@, key@) == member(ms@.skip(i as int), key@),
        decreases ms.len() - i,
    {
        if str_eq(ms[i].0.as_str(), key) {
            return &ms[i].1;
        }
        assert(ms@.skip(i as int).drop_first() =~= ms@.skip(i + 1));
        i += 1;
    }
    &JSON_NULL
}

/// The value absent members read as.
pub const JSON_NULL: JsonValue = JsonValue::Null;

/// The string member `key`, if it is a string.
pub fn payload_str(ms: &Vec<(String, JsonValue)>, key: &str) -> (r: Option<String>)
    ensures
        r == as_str(member(ms@, key@)),
{
    match payload_member(ms, key) {
        JsonValue::Str(s) => Some(s.clone()),
        _ => None,
    }
}

/// The string member `key`, or the empty string.
pub fn payload_str_or_empty(ms: &Vec<(String, JsonValue)>, key: &str) -> (r: String)
    ensures
        r@ == (match as_str(member(ms@, key@)) {
            Some(s) => s@,
            None => Seq::empty(),
        }),
{
    match payload_member(ms, key) {
        JsonValue::Str(s) => s.clone(),
        _ => String::new(),
    }
}

/// The member `key` as an unsigned integer, or 0.
pub fn payload_u64_or_zero(ms: &Vec<(String, JsonValue)>, key: &str) -> (r: u64)
    ensures
        r == (match as_u64(member(ms@, key@)) {
            Some(n) => n,
            None => 0,
        }),
{
    match payload_member(ms, key) {
        JsonValue::PosInt(n) => *n,
        _ => 0,
    }
}

/// The member `key` as a signed integer, or 0.
pub fn payload_i64_or_zero(ms: &Vec<(String, JsonValue)>, key: &str) -> (r: i64)
    ensures
        r == (match as_i64(member(ms@, key@)) {
            Some(n) => n,
            None => 0,
        }),
{
    match payload_member(ms, key) {
        JsonValue::PosInt(n) => if *n <= 9223372036854775807u64 {
            *n as i64
        } else {
            0
        },
        JsonValue::NegInt(n) => *n,
        _ => 0,
    }
}

/// The text of an outbound message: `{"type":…,"payload":{…}}`, the payload
/// members in the given order.
pub open spec fn envelope_json(msg_type: Seq<char>, payload: Seq<(Seq<char>, Seq<char>)>) -> Seq<
    char,
> {
    json_object(seq![("type"@, json_str(msg_type)), ("payload"@, json_object(payload))])
}

fn build(msg_type: &str, payload: Vec<(String, String)>) -> (r: String)
    ensures
        r@ == envelope_json(msg_type@, member_texts(payload@)),
{
    let body = render_object(&payload);
    let members = vec![("type".to_string(), render_str(msg_type)), ("payload".to_string(), body)];
    let r = render_object(&members);
    assert(member_texts(members@) =~= seq![
        ("type"@, json_str(msg_type@)),
        ("payload"@, json_object(member_texts(payload@))),
    ]);
    r
}

/// `register_ack` payload: `host_id`, `success`.
pub open spec fn register_ack_text(host_id: Seq<char>, success: bool) -> Seq<char> {
    envelope_json("register_ack"@, seq![("host_id"@, json_str(host_id)), ("success"@, json_bool(success))])
}

/// `{"type":"register_ack","payload":{"host_id":"…","success":true}}`
pub fn json_register_ack(host_id: String, success: bool) -> (r: String)
    ensures
        r@ == register_ack_text(host_id@, success),
{
    let p = vec![
        ("host_id".to_string(), render_str(host_id.as_str())),
        ("success".to_string(), render_bool(success)),
    ];
    let r = build("register_ack", p);
    assert(member_texts(p@) =~= seq![("host_id"@, json_str(host_id@)), ("success"@, json_bool(success))]);
    r
}

/// `connect_response` payload: `accepted`, `session_token`, `error_message`.
pub open spec fn connect_response_text(accepted: bool, token: Seq<char>, err: Seq<char>) -> Seq<char> {
    envelope_json(
        "connect_response"@,
        seq![
            ("accepted"@, json_bool(accepted)),
            ("session_token"@, json_str(token)),
            ("error_message"@, json_str(err)),
        ],
    )
}

/// `{"type":"connect_response","payload":{"accepted":…,"session_token":"…","error_message":"…"}}`
pub fn json_connect_response(accepted: bool, session_token: String, error_message: String) -> (r:
    String)
    ensures
        r@ == connect_response_text(accepted, session_token@, error_message@),
{
    let p = vec![
        ("accepted".to_string(), render_bool(accepted)),
        ("session_token".to_string(), render_str(session_token.as_str())),
        ("error_message".to_string(), render_str(error_message.as_str())),
    ];
    let r = build("connect_response", p);
    assert(member_texts(p@) =~= seq![
        ("accepted"@, json_bool(accepted)),
        ("session_token"@, json_str(session_token@)),
        ("error_message"@, json_str(error_message@)),
    ]);
    r
}

/// `incoming_connection` payload: `viewer_session_id`.
pub open spec fn incoming_connection_text(viewer: Seq<char>) -> Seq<char> {
    envelope_json("incoming_connection"@, seq![("viewer_session_id"@, json_str(viewer))])
}

/// `{"type":"incoming_connection","payload":{"viewer_session_id":"…"}}`
pub fn json_incoming_connection(viewer_session_id: String) -> (r: String)
    ensures
        r@ == incoming_connection_text(viewer_session_id@),
{
    let p = vec![("viewer_session_id".to_string(), render_str(viewer_session_id.as_str()))];
    let r = build("incoming_connection", p);
    assert(member_texts(p@) =~= seq![("viewer_session_id"@, json_str(viewer_session_id@))]);
    r
}

/// A payload of `sdp` and `session_token`.
pub open spec fn sdp_text(msg_type: Seq<char>, sdp: Seq<char>, token: Seq<char>) -> Seq<char> {
    envelope_json(msg_type, seq![("sdp"@, json_str(sdp)), ("session_token"@, json_str(token))])
}

fn build_sdp(msg_type: &str, sdp: String, session_token: String) -> (r: String)
    ensures
        r@ == sdp_text(msg_type@, sdp@, session_token@),
{
    let p = vec![
        ("sdp".to_string(), render_str(sdp.as_str())),
        ("session_token".to_string(), render_str(session_token.as_str())),
    ];
    let r = build(msg_type, p);
    assert(member_texts(p@) =~= seq![("sdp"@, json_str(sdp@)), ("session_token"@, json_str(session_token@))]);
    r
}

/// `{"type":"sdp_offer","payload":{"sdp":"…","session_token":"…"}}`
pub fn json_sdp_offer(sdp: String, session_token: String) -> (r: String)
    ensures
        r@ == sdp_text("sdp_offer"@, sdp@, session_token@),
{
    build_sdp("sdp_offer", sdp, session_token)
}

/// `{"type":"sdp_answer","payload":{"sdp":"…","session_token":"…"}}`
pub fn json_sdp_answer(sdp: String, session_token: String) -> (r: String)
    ensures
        r@ == sdp_text("sdp_answer"@, sdp@, session_token@),
{
    build_sdp("sdp_answer", sdp, session_token)
}

/// `ice_candidate` payload: `candidate`, `sdp_mid`, `sdp_mline_index`, `session_token`.
pub open spec fn ice_candidate_text(candidate: Seq<char>, sdp_mid: Seq<char>, index: i32, token: Seq<char>) -> Seq<char> {
    envelope_json(
        "ice_candidate"@,
        seq![
            ("candidate"@, json_str(candidate)),
            ("sdp_mid"@, json_str(sdp_mid)),
            ("sdp_mline_index"@, decimal_int(index as int)),
            ("session_token"@, json_str(token)),
        ],
    )
}

/// `{"type":"ice_candidate","payload":{"candidate":"…","sdp_mid":"…","sdp_mline_index":0,"session_token":"…"}}`
pub fn json_ice_candidate(
    candidate: String,
    sdp_mid: String,
    sdp_mline_index: i32,
    session_token: String,
) -> (r: String)
    ensures
        r@ == ice_candidate_text(candidate@, sdp_mid@, sdp_mline_index, session_token@),
{
    let p = vec![
        ("candidate".to_string(), render_str(candidate.as_str())),
        ("sdp_mid".to_string(), render_str(sdp_mid.as_str())),
        ("sdp_mline_index".to_string(), render_i64(sdp_mline_index as i64)),
        ("session_token".to_string(), render_str(session_token.as_str())),
    ];
    let r = build("ice_candidate", p);
    assert(member_texts(p@) =~= seq![
        ("candidate"@, json_str(candidate@)),
        ("sdp_mid"@, json_str(sdp_mid@)),
        ("sdp_mline_index"@, decimal_int(sdp_mline_index as int)),
        ("session_token"@, json_str(session_token@)),
    ]);
    r
}

/// `pong` payload: `timestamp_ms`.
pub open spec fn pong_text(timestamp_ms: u64) -> Seq<char> {
    envelope_json("pong"@, seq![("timestamp_ms"@, decimal(timestamp_ms as nat))])
}

/// `{"type":"pong","payload":{"timestamp_ms":…}}`
pub fn json_pong(timestamp_ms: u64) -> (r: String)
    ensures
        r@ == pong_text(timestamp_ms),
{
    let p = vec![("timestamp_ms".to_string(), render_u64(timestamp_ms))];
    let r = build("pong", p);
    assert(member_texts(p@) =~= seq![("timestamp_ms"@, decimal(timestamp_ms as nat))]);
    r
}

/// `error` payload: `code`, `message`.
pub open spec fn error_text(code: Seq<char>, message: Seq<char>) -> Seq<char> {
    envelope_json("error"@, seq![("code"@, json_str(code)), ("message"@, json_str(message))])
}

/// `{"type":"error","payload":{"code":"…","message":"…"}}`
pub fn json_error(code: String, message: String) -> (r: String)
    ensures
        r@ == error_text(code@, message@),
{
    let p = vec![
        ("code".to_string(), render_str(code.as_str())),
        ("message".to_string(), render_str(message.as_str())),
    ];
    let r = build("error", p);
    assert(member_texts(p@) =~= seq![("code"@, json_str(code@)), ("message"@, json_str(message@))]);
    r
}

/// `session_timeout_warning` payload: `seconds_remaining`.
pub open spec fn timeout_warning_text(seconds_remaining: u64) -> Seq<char> {
    envelope_json("session_timeout_warning"@, seq![("seconds_remaining"@, decimal(seconds_remaining as nat))])
}

/// `{"type":"session_timeout_warning","payload":{"seconds_remaining":30}}`
pub fn json_session_timeout_warning(seconds_remaining: u64) -> (r: String)
    ensures
        r@ == timeout_warning_text(seconds_remaining),
{
    let p = vec![("seconds_remaining".to_string(), render_u64(seconds_remaining))];
    let r = build("session_timeout_warning", p);
    assert(member_texts(p@) =~= seq![("seconds_remaining"@, decimal(seconds_remaining as nat))]);
    r
}

/// `session_expired` payload: `reason`.
pub open spec fn session_expired_text(reason: Seq<char>) -> Seq<char> {
    envelope_json("session_expired"@, seq![("reason"@, json_str(reason))])
}

/// `{"type":"session_expired","payload":{"reason":"idle_timeout"}}`
pub fn json_session_expired(reason: String) -> (r: String)
    ensures
        r@ == session_expired_text(reason@),
{
    let p = vec![("reason".to_string(), render_str(reason.as_str()))];
    let r = build("session_expired", p);
    assert(member_texts(p@) =~= seq![("reason"@, json_str(reason@))]);
    r
}

/// Law: every message the server writes to a viewer is a JSON object whose
/// first member is `type`, naming the message, and whose second is
/// `payload`, holding the message's fields in the documented order, each
/// value taken from the argument of the same name.
pub proof fn law_message_members(
    host_id: Seq<char>,
    flag: bool,
    token: Seq<char>,
    text: Seq<char>,
    sdp: Seq<char>,
    index: i32,
    n: u64,
)
    ensures
        register_ack_text(host_id, flag) == json_object(seq![
            ("type"@, json_str("register_ack"@)),
            ("payload"@, json_object(seq![("host_id"@, json_str(host_id)), ("success"@, json_bool(flag))])),
        ]),
        connect_response_text(flag, token, text) == json_object(seq![
            ("type"@, json_str("connect_response"@)),
            (
                "payload"@,
                json_object(seq![
                    ("accepted"@, json_bool(flag)),
                    ("session_token"@, json_str(token)),
                    ("error_message"@, json_str(text)),
                ]),
            ),
        ]),
        incoming_connection_text(text) == json_object(seq![
            ("type"@, json_str("incoming_connection"@)),
            ("payload"@, json_object(seq![("viewer_session_id"@, json_str(text))])),
        ]),
        sdp_text(text, sdp, token) == json_object(seq![
            ("type"@, json_str(text)),
            ("payload"@, json_object(seq![("sdp"@, json_str(sdp)), ("session_token"@, json_str(token))])),
        ]),
        ice_candidate_text(sdp, text, index, token) == json_object(seq![
            ("type"@, json_str("ice_candidate"@)),
            (
                "payload"@,
                json_object(seq![
                    ("candidate"@, json_str(sdp)),
                    ("sdp_mid"@, json_str(text)),
                    ("sdp_mline_index"@, decimal_int(index as int)),
                    ("session_token"@, json_str(token)),
                ]),
            ),
        ]),
        pong_text(n) == json_object(seq![
            ("type"@, json_str("pong"@)),
            ("payload"@, json_object(seq![("timestamp_ms"@, decimal(n as nat))])),
        ]),
        error_text(token, text) == json_object(seq![
            ("type"@, json_str("error"@)),
            ("payload"@, json_object(seq![("code"@, json_str(token)), ("message"@, json_str(text))])),
        ]),
        timeout_warning_text(n) == json_object(seq![
            ("type"@, json_str("session_timeout_warning"@)),
            ("payload"@, json_object(seq![("seconds_remaining"@, decimal(n as nat))])),
        ]),
        session_expired_text(text) == json_object(seq![
            ("type"@, json_str("session_expired"@)),
            ("payload"@, json_object(seq![("reason"@, json_str(text))])),
        ]),
{
}

} // verus!
