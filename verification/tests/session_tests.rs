//! Tests of the session state machine: pinning, establishment, replies,
//! exit decisions, and a simulated two-peer exchange.

use rendezvous_client::presence::PresenceTable;
use rendezvous_client::session::{Outcome, Phase, Session};

fn session(hold: bool) -> Session {
    Session::new(
        "demo".to_string(),
        "alice".to_string(),
        "bob".to_string(),
        hold,
    )
}

fn endpoint_of(s: &Session) -> Option<String> {
    match &s.phase {
        Phase::CandidateKnown { endpoint } => Some(endpoint.clone()),
        Phase::Established { endpoint } => Some(endpoint.clone()),
        _ => None,
    }
}

#[test]
fn ping_from_unresolved_peer_establishes_and_answers_one_pong() {
    let mut s = session(false);
    assert!(matches!(s.phase, Phase::Unresolved));
    let reply = s.handle_datagram("vpn-ping demo bob", "10.1.1.7:4444");
    assert_eq!(
        reply,
        Some(("vpn-pong demo alice".to_string(), "10.1.1.7:4444".to_string()))
    );
    assert!(matches!(&s.phase, Phase::Established { endpoint } if endpoint == "10.1.1.7:4444"));
}

#[test]
fn established_session_without_hold_exits_successfully_at_next_check() {
    let mut s = session(false);
    s.handle_datagram("vpn-pong demo bob", "10.1.1.7:4444");
    assert!(matches!(s.phase, Phase::Established { .. }));
    assert_eq!(s.check_exit(false, false), Some(Outcome::Success));
    assert!(matches!(
        s.phase,
        Phase::Done { outcome: Outcome::Success }
    ));
    // Once done, no timer sends anything further.
    assert_eq!(s.on_punch_tick(), None);
    assert_eq!(s.on_keepalive_tick(), None);
}

#[test]
fn duplicate_pong_after_establishment_changes_nothing_and_sends_nothing() {
    let mut s = session(true);
    s.handle_datagram("vpn-pong demo bob", "10.1.1.7:4444");
    assert!(matches!(s.phase, Phase::Established { .. }));
    let reply = s.handle_datagram("vpn-pong demo bob", "10.1.1.7:4444");
    assert_eq!(reply, None);
    assert!(matches!(&s.phase, Phase::Established { endpoint } if endpoint == "10.1.1.7:4444"));
}

#[test]
fn duplicate_ping_after_establishment_retriggers_a_pong_without_regressing() {
    let mut s = session(true);
    s.handle_datagram("vpn-ping demo bob", "10.1.1.7:4444");
    assert!(matches!(s.phase, Phase::Established { .. }));
    let reply = s.handle_datagram("vpn-ping demo bob", "10.1.1.7:4444");
    assert_eq!(
        reply,
        Some(("vpn-pong demo alice".to_string(), "10.1.1.7:4444".to_string()))
    );
    assert!(matches!(s.phase, Phase::Established { .. }));
}

#[test]
fn registration_text_is_idempotent_on_the_wire() {
    let s = session(false);
    assert_eq!(s.registration_text(), s.registration_text());
    assert_eq!(
        s.registration_text(),
        r#"{"client_id":"alice","room":"demo"}"#
    );
}

#[test]
fn foreign_or_garbled_datagrams_change_nothing() {
    let mut s = session(false);
    assert_eq!(s.handle_datagram("vpn-ping other bob", "1.1.1.1:1"), None);
    assert_eq!(s.handle_datagram("vpn-ping demo carol", "1.1.1.1:1"), None);
    assert_eq!(s.handle_datagram("junk", "1.1.1.1:1"), None);
    assert_eq!(s.handle_datagram("", "1.1.1.1:1"), None);
    assert!(matches!(s.phase, Phase::Unresolved));
}

#[test]
fn unknown_kind_pins_the_sender_but_does_not_establish() {
    let mut s = session(false);
    let reply = s.handle_datagram("vpn-hello demo bob", "2.2.2.2:2");
    assert_eq!(reply, None);
    assert!(matches!(&s.phase, Phase::CandidateKnown { endpoint } if endpoint == "2.2.2.2:2"));
}

#[test]
fn presence_snapshot_pins_the_target_peer() {
    let mut s = session(false);
    s.handle_channel_text(
        r#"["1","1","rendezvous:demo","presence_state",{"bob":{"metas":[{"udp":"10.0.0.2:1234"}]}}]"#,
    );
    assert!(matches!(&s.phase, Phase::CandidateKnown { endpoint } if endpoint == "10.0.0.2:1234"));
    // The punch timer now sends pings to the candidate.
    assert_eq!(
        s.on_punch_tick(),
        Some(("vpn-ping demo alice".to_string(), "10.0.0.2:1234".to_string()))
    );
    // Not established yet: the keepalive timer stays quiet.
    assert_eq!(s.on_keepalive_tick(), None);
}

#[test]
fn udp_seen_pins_the_target_peer() {
    let mut s = session(false);
    s.handle_channel_text(r#"["1","1","t","udp_seen",{"client_id":"bob","udp":"9.9.9.9:9"}]"#);
    assert!(matches!(&s.phase, Phase::CandidateKnown { endpoint } if endpoint == "9.9.9.9:9"));
}

#[test]
fn presence_of_other_peers_pins_nothing() {
    let mut s = session(false);
    s.handle_channel_text(
        r#"["1","1","t","presence_state",{"carol":{"metas":[{"udp":"3.3.3.3:3"}]}}]"#,
    );
    assert!(matches!(s.phase, Phase::Unresolved));
    s.handle_channel_text(r#"["1","1","t","presence_state",{"bob":{"metas":[{}]}}]"#);
    assert!(matches!(s.phase, Phase::Unresolved));
}

#[test]
fn first_pin_wins_over_later_broadcasts() {
    let mut s = session(false);
    s.handle_datagram("vpn-hello demo bob", "4.4.4.4:4");
    assert_eq!(endpoint_of(&s), Some("4.4.4.4:4".to_string()));
    s.handle_channel_text(
        r#"["1","1","t","presence_state",{"bob":{"metas":[{"udp":"5.5.5.5:5"}]}}]"#,
    );
    assert_eq!(endpoint_of(&s), Some("4.4.4.4:4".to_string()));
    s.handle_channel_text(r#"["1","1","t","udp_seen",{"client_id":"bob","udp":"6.6.6.6:6"}]"#);
    assert_eq!(endpoint_of(&s), Some("4.4.4.4:4".to_string()));
}

#[test]
fn pinned_session_establishes_only_from_the_candidate_address() {
    let mut s = session(false);
    s.handle_channel_text(r#"["1","1","t","udp_seen",{"client_id":"bob","udp":"7.7.7.7:7"}]"#);
    assert!(matches!(s.phase, Phase::CandidateKnown { .. }));
    // A matching pong from another address is answered by nothing and does
    // not establish; a matching ping from another address still draws a pong.
    s.handle_datagram("vpn-pong demo bob", "8.8.8.8:8");
    assert!(matches!(s.phase, Phase::CandidateKnown { .. }));
    // From the candidate's address, a pong establishes.
    s.handle_datagram("vpn-pong demo bob", "7.7.7.7:7");
    assert!(matches!(&s.phase, Phase::Established { endpoint } if endpoint == "7.7.7.7:7"));
}

#[test]
fn acknowledgement_and_unknown_events_are_no_ops() {
    let mut s = session(false);
    s.handle_channel_text(r#"["1","1","t","phx_reply",{"status":"ok"}]"#);
    s.handle_channel_text(r#"["1","1","t","something_else",{"client_id":"bob"}]"#);
    s.handle_channel_text("not json at all");
    assert!(matches!(s.phase, Phase::Unresolved));
}

#[test]
fn heartbeat_references_strictly_increase() {
    let mut s = session(false);
    let first = s.next_heartbeat_text();
    let second = s.next_heartbeat_text();
    assert_eq!(first, r#"["0","11","phoenix","heartbeat",{}]"#);
    assert_eq!(second, r#"["0","12","phoenix","heartbeat",{}]"#);
    assert_eq!(s.hb_ref, 12);
}

#[test]
fn join_and_topic_texts_are_exact() {
    let s = session(false);
    assert_eq!(s.topic(), "rendezvous:demo");
    assert_eq!(
        s.join_text(),
        r#"["1","1","rendezvous:demo","phx_join",{"client_id":"alice"}]"#
    );
}

#[test]
fn established_session_with_hold_keeps_probing_until_the_hold_elapses() {
    let mut s = session(true);
    s.handle_datagram("vpn-ping demo bob", "10.1.1.7:4444");
    assert!(matches!(s.phase, Phase::Established { .. }));
    // Not done yet: the hold keeps the session alive.
    assert_eq!(s.check_exit(false, false), None);
    assert_eq!(
        s.on_keepalive_tick(),
        Some(("vpn-ping demo alice".to_string(), "10.1.1.7:4444".to_string()))
    );
    // The punch timer is for the pre-establishment phase only.
    assert_eq!(s.on_punch_tick(), None);
    // The hold deadline ends the session successfully.
    assert_eq!(s.check_exit(false, true), Some(Outcome::Success));
}

#[test]
fn overall_deadline_beats_the_hold() {
    let mut s = session(true);
    s.handle_datagram("vpn-ping demo bob", "10.1.1.7:4444");
    assert_eq!(s.check_exit(true, true), Some(Outcome::Timeout));
}

#[test]
fn times_out_exactly_when_the_deadline_elapses() {
    let mut s = session(false);
    // Not before the deadline.
    assert_eq!(s.check_exit(false, false), None);
    assert!(matches!(s.phase, Phase::Unresolved));
    // At the deadline, from any unfinished phase.
    assert_eq!(s.check_exit(true, false), Some(Outcome::Timeout));
    assert!(matches!(
        s.phase,
        Phase::Done { outcome: Outcome::Timeout }
    ));
    // The failure line names both identifiers.
    assert_eq!(
        s.timeout_message(),
        "alice timed out waiting for direct udp with peer bob"
    );
}

#[test]
fn snapshots_merge_and_absent_keys_stay_untouched() {
    let mut s = session(false);
    // Bob is present but without an endpoint: nothing to pin yet.
    s.handle_channel_text(r#"["1","1","t","presence_state",{"bob":{"metas":[{}]}}]"#);
    assert!(matches!(s.phase, Phase::Unresolved));
    assert_eq!(s.peers.get("bob"), Some(None));
    // A snapshot about someone else leaves Bob's entry untouched.
    s.handle_channel_text(
        r#"["1","1","t","presence_state",{"carol":{"metas":[{"udp":"1.1.1.1:1"}]}}]"#,
    );
    assert!(matches!(s.phase, Phase::Unresolved));
    assert_eq!(s.peers.get("bob"), Some(None));
    // A later snapshot overwrites Bob's entry: last write wins, and the
    // session pins the endpoint.
    s.handle_channel_text(
        r#"["1","1","t","presence_state",{"bob":{"metas":[{"udp":"2.2.2.2:2"}]}}]"#,
    );
    assert_eq!(s.peers.get("bob"), Some(Some("2.2.2.2:2".to_string())));
    assert!(matches!(&s.phase, Phase::CandidateKnown { endpoint } if endpoint == "2.2.2.2:2"));
}

#[test]
fn presence_table_upserts_with_last_write_winning() {
    let mut t = PresenceTable::new();
    assert_eq!(t.get("a"), None);
    t.upsert("a".to_string(), Some("1.2.3.4:5".to_string()));
    assert_eq!(t.get("a"), Some(Some("1.2.3.4:5".to_string())));
    t.upsert("a".to_string(), None);
    assert_eq!(t.get("a"), Some(None));
    t.upsert("b".to_string(), Some("6.7.8.9:0".to_string()));
    assert_eq!(t.get("a"), Some(None));
    assert_eq!(t.get("b"), Some(Some("6.7.8.9:0".to_string())));
}

#[test]
fn two_sessions_establish_through_probes_alone() {
    // Two peers, matching room, each configured with the other; no signaling
    // traffic is needed once each side knows an address for the other.
    let mut alice = Session::new(
        "demo".to_string(),
        "alice".to_string(),
        "bob".to_string(),
        false,
    );
    let mut bob = Session::new(
        "demo".to_string(),
        "bob".to_string(),
        "alice".to_string(),
        false,
    );
    let alice_addr = "192.168.0.1:1111".to_string();
    let bob_addr = "192.168.0.2:2222".to_string();

    // Each learns the other's address from the coordinator's broadcast.
    alice.handle_channel_text(
        r#"["1","1","t","udp_seen",{"client_id":"bob","udp":"192.168.0.2:2222"}]"#,
    );
    bob.handle_channel_text(
        r#"["1","1","t","udp_seen",{"client_id":"alice","udp":"192.168.0.1:1111"}]"#,
    );

    // Alice's punch timer fires; her ping reaches Bob from her address.
    let (ping, to) = alice.on_punch_tick().expect("punch should fire");
    assert_eq!(to, bob_addr);
    let reply = bob.handle_datagram(&ping, &alice_addr);
    assert!(matches!(bob.phase, Phase::Established { .. }));

    // Bob's pong reaches Alice from his address; she establishes too.
    let (pong, pong_to) = reply.expect("a ping draws a pong");
    assert_eq!(pong_to, alice_addr);
    assert_eq!(alice.handle_datagram(&pong, &bob_addr), None);
    assert!(matches!(alice.phase, Phase::Established { .. }));

    // Both exit successfully before any deadline.
    assert_eq!(alice.check_exit(false, false), Some(Outcome::Success));
    assert_eq!(bob.check_exit(false, false), Some(Outcome::Success));
}
