use eremote::json_protocol::{
    json_connect_response, json_error, json_ice_candidate, json_incoming_connection, json_pong,
    json_register_ack, json_sdp_answer, json_sdp_offer, json_session_expired,
    json_session_timeout_warning,
};
use eremote::wire::{render_i64, render_str, render_u64};

#[test]
fn register_ack_text() {
    assert_eq!(
        json_register_ack("123456789".to_string(), true),
        r#"{"type":"register_ack","payload":{"host_id":"123456789","success":true}}"#
    );
}

#[test]
fn connect_response_text() {
    assert_eq!(
        json_connect_response(false, String::new(), "Invalid password".to_string()),
        r#"{"type":"connect_response","payload":{"accepted":false,"session_token":"","error_message":"Invalid password"}}"#
    );
}

#[test]
fn incoming_and_sdp_texts() {
    assert_eq!(
        json_incoming_connection("v1".to_string()),
        r#"{"type":"incoming_connection","payload":{"viewer_session_id":"v1"}}"#
    );
    assert_eq!(
        json_sdp_offer("o".to_string(), "t".to_string()),
        r#"{"type":"sdp_offer","payload":{"sdp":"o","session_token":"t"}}"#
    );
    assert_eq!(
        json_sdp_answer("a\r\nb".to_string(), "t".to_string()),
        r#"{"type":"sdp_answer","payload":{"sdp":"a\r\nb","session_token":"t"}}"#
    );
}

#[test]
fn ice_candidate_text_with_negative_index() {
    assert_eq!(
        json_ice_candidate("c".to_string(), "0".to_string(), -3, "t".to_string()),
        r#"{"type":"ice_candidate","payload":{"candidate":"c","sdp_mid":"0","sdp_mline_index":-3,"session_token":"t"}}"#
    );
}

#[test]
fn pong_and_error_texts() {
    assert_eq!(json_pong(1700000000123), r#"{"type":"pong","payload":{"timestamp_ms":1700000000123}}"#);
    assert_eq!(
        json_error("PARSE_ERROR".to_string(), "Invalid \"JSON\"".to_string()),
        r#"{"type":"error","payload":{"code":"PARSE_ERROR","message":"Invalid \"JSON\""}}"#
    );
}

#[test]
fn idle_notice_texts() {
    assert_eq!(
        json_session_timeout_warning(30),
        r#"{"type":"session_timeout_warning","payload":{"seconds_remaining":30}}"#
    );
    assert_eq!(
        json_session_expired("idle_timeout".to_string()),
        r#"{"type":"session_expired","payload":{"reason":"idle_timeout"}}"#
    );
}

#[test]
fn builders_produce_valid_json() {
    let v: serde_json::Value =
        serde_json::from_str(&json_ice_candidate("x\"y".into(), "m".into(), 7, "tok".into())).unwrap();
    assert_eq!(v["type"], "ice_candidate");
    assert_eq!(v["payload"]["candidate"], "x\"y");
    assert_eq!(v["payload"]["sdp_mline_index"], 7);
}

#[test]
fn numbers_render_in_decimal() {
    assert_eq!(render_u64(0), "0");
    assert_eq!(render_u64(u64::MAX), "18446744073709551615");
    assert_eq!(render_i64(i64::MIN), "-9223372036854775808");
    assert_eq!(render_i64(-1), "-1");
    assert_eq!(render_str("é\n"), "\"é\\n\"");
}

#[test]
fn strings_are_escaped() {
    assert_eq!(render_str("plain é"), "\"plain é\"");
    assert_eq!(render_str("a\"b\\c"), r#""a\"b\\c""#);
    assert_eq!(render_str("\u{8}\t\n\u{c}\r"), r#""\b\t\n\f\r""#);
    assert_eq!(render_str("\u{1}\u{1f}\u{7f}"), "\"\\u0001\\u001f\u{7f}\"");
    assert_eq!(
        json_error("C".to_string(), "x\ny".to_string()),
        r#"{"type":"error","payload":{"code":"C","message":"x\ny"}}"#
    );
}
