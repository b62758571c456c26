//! Tests of the wire codecs: signaling frames, presence snapshots, probe
//! lines, and the encoded JSON texts.

use rendezvous_client::codec::{
    encode_heartbeat, encode_join, encode_probe, encode_registration, parse_phoenix_v2_message,
    parse_udp_message,
};
use rendezvous_client::presence::parse_presence_state;
use rendezvous_client::text::u64_to_string;

#[test]
fn parses_presence_state_udp_meta() {
    let v: serde_json::Value = serde_json::from_str(
        r#"{
          "a": { "metas": [ { "udp": "10.0.0.2:1234" } ] },
          "b": { "metas": [ { } ] }
        }"#,
    )
    .unwrap();
    let got = parse_presence_state(&v);
    assert_eq!(got.get("a").flatten(), Some("10.0.0.2:1234".to_string()));
    assert_eq!(got.get("b").flatten(), None);
}

#[test]
fn presence_entries_without_the_expected_shape_yield_absent() {
    let v: serde_json::Value = serde_json::from_str(
        r#"{
          "no_metas": {},
          "metas_not_array": { "metas": 5 },
          "empty_metas": { "metas": [] },
          "udp_not_string": { "metas": [ { "udp": 7 } ] },
          "entry_not_object": 3
        }"#,
    )
    .unwrap();
    let got = parse_presence_state(&v);
    for key in [
        "no_metas",
        "metas_not_array",
        "empty_metas",
        "udp_not_string",
        "entry_not_object",
    ] {
        assert_eq!(got.get(key), Some(None), "entry {key} should be present and absent");
    }
}

#[test]
fn presence_of_non_object_payload_is_empty() {
    let v: serde_json::Value = serde_json::from_str(r#"[1, 2, 3]"#).unwrap();
    let got = parse_presence_state(&v);
    assert_eq!(got.get("a"), None);
}

#[test]
fn decodes_well_formed_signaling_frame() {
    let txt = r#"["1","2","rendezvous:demo","presence_state",{"x":{"metas":[{}]}}]"#;
    let (topic, event, payload) = parse_phoenix_v2_message(txt).expect("frame should decode");
    assert_eq!(topic, "rendezvous:demo");
    assert_eq!(event, "presence_state");
    let expected: serde_json::Value =
        serde_json::from_str(r#"{"x":{"metas":[{}]}}"#).unwrap();
    assert_eq!(payload, expected);
}

#[test]
fn rejects_malformed_signaling_frames() {
    // Not JSON at all.
    assert!(parse_phoenix_v2_message("not json").is_none());
    // Not an array.
    assert!(parse_phoenix_v2_message(r#"{"a":1}"#).is_none());
    // Fewer than five elements.
    assert!(parse_phoenix_v2_message(r#"["1","2","topic","event"]"#).is_none());
    // Non-string topic.
    assert!(parse_phoenix_v2_message(r#"["1","2",3,"event",{}]"#).is_none());
    // Non-string event.
    assert!(parse_phoenix_v2_message(r#"["1","2","topic",4,{}]"#).is_none());
}

#[test]
fn frame_with_extra_elements_still_decodes() {
    let txt = r#"["1","2","t","e",{},"extra"]"#;
    let (topic, event, _payload) = parse_phoenix_v2_message(txt).expect("frame should decode");
    assert_eq!(topic, "t");
    assert_eq!(event, "e");
}

#[test]
fn decodes_probe_lines_of_exactly_three_tokens() {
    assert_eq!(
        parse_udp_message("vpn-ping demo alice"),
        Some(("vpn-ping", "demo", "alice"))
    );
    assert_eq!(
        parse_udp_message("  vpn-pong\tdemo  bob "),
        Some(("vpn-pong", "demo", "bob"))
    );
}

#[test]
fn rejects_probe_lines_of_other_token_counts() {
    assert_eq!(parse_udp_message(""), None);
    assert_eq!(parse_udp_message("   "), None);
    assert_eq!(parse_udp_message("vpn-ping demo"), None);
    assert_eq!(parse_udp_message("vpn-ping demo alice extra"), None);
}

#[test]
fn probe_line_round_trips_through_the_decoder() {
    let line = encode_probe("vpn-ping", "demo", "alice");
    assert_eq!(line, "vpn-ping demo alice");
    assert_eq!(
        parse_udp_message(&line),
        Some(("vpn-ping", "demo", "alice"))
    );
}

#[test]
fn registration_text_is_exact_and_repeatable() {
    let one = encode_registration("demo", "alice");
    let two = encode_registration("demo", "alice");
    assert_eq!(one, r#"{"client_id":"alice","room":"demo"}"#);
    assert_eq!(one, two);
}

#[test]
fn join_text_is_exact() {
    let txt = encode_join("rendezvous:demo", "alice");
    assert_eq!(
        txt,
        r#"["1","1","rendezvous:demo","phx_join",{"client_id":"alice"}]"#
    );
}

#[test]
fn heartbeat_text_is_exact() {
    assert_eq!(encode_heartbeat(11), r#"["0","11","phoenix","heartbeat",{}]"#);
}

#[test]
fn renders_decimals_exactly() {
    assert_eq!(u64_to_string(0), "0");
    assert_eq!(u64_to_string(7), "7");
    assert_eq!(u64_to_string(10), "10");
    assert_eq!(u64_to_string(65535), "65535");
    assert_eq!(u64_to_string(u64::MAX), "18446744073709551615");
}
