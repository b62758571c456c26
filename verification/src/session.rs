//! The session state machine and its event handlers.
//!
//! One session tries to reach one named peer. Its phase advances strictly
//! forward: `Unresolved` (no address for the peer yet) to `CandidateKnown`
//! (an address is pinned, punch probes flow) to `Established` (a live probe
//! was seen from the peer) to `Done` (success, or timeout from any phase).
//! The candidate endpoint is pinned once and never replaced: a later
//! presence broadcast does not evict an already-learned working address.
//!
//! The handlers here are pure decisions from plain values: the event loop
//! around the library owns the sockets and the clock, feeds received texts
//! and timer firings in, and performs the sends the handlers return.

use vstd::prelude::*;
use vstd::string::StrSliceExecFns;
use vstd::string::StringExecFns;

use crate::codec::{
    encode_join, encode_probe, encode_registration, frame_of_text, heartbeat_model, join_model,
    parse_phoenix_v2_message, parse_udp_message, parse_udp_spec, registration_model,
};
use crate::json::{json_text_of, obj_str_field, str_field, val_model, JsonV};
use crate::presence::{presence_of_value, PresenceTable};
use crate::text::str_eq;

verus! {

/// How a finished session ended.
#[derive(Clone, Copy, Debug, PartialEq, Eq, Structural)]
pub enum Outcome {
    Success,
    Timeout,
}

/// The phase of a session.
#[derive(Debug)]
pub enum Phase {
    Unresolved,
    CandidateKnown { endpoint: String },
    Established { endpoint: String },
    Done { outcome: Outcome },
}

/// The view of a phase.
pub enum PhaseV {
    Unresolved,
    CandidateKnown { endpoint: Seq<char> },
    Established { endpoint: Seq<char> },
    Done { outcome: Outcome },
}

impl View for Phase {
    type V = PhaseV;

    open spec fn view(&self) -> PhaseV {
        match self {
            Phase::Unresolved => PhaseV::Unresolved,
            Phase::CandidateKnown { endpoint } => PhaseV::CandidateKnown { endpoint: endpoint@ },
            Phase::Established { endpoint } => PhaseV::Established { endpoint: endpoint@ },
            Phase::Done { outcome } => PhaseV::Done { outcome: *outcome },
        }
    }
}

/// How far a phase has advanced.
pub open spec fn phase_rank(p: PhaseV) -> int {
    match p {
        PhaseV::Unresolved => 0,
        PhaseV::CandidateKnown { .. } => 1,
        PhaseV::Established { .. } => 2,
        PhaseV::Done { .. } => 3,
    }
}

/// The endpoint a phase has pinned, if any.
pub open spec fn pinned(p: PhaseV) -> Option<Seq<char>> {
    match p {
        PhaseV::Unresolved => None,
        PhaseV::CandidateKnown { endpoint } => Some(endpoint),
        PhaseV::Established { endpoint } => Some(endpoint),
        PhaseV::Done { .. } => None,
    }
}

/// One probe line.
pub open spec fn probe_line(kind: Seq<char>, room: Seq<char>, id: Seq<char>) -> Seq<char> {
    kind + " "@ + room + " "@ + id
}

/// A probe kind that confirms live connectivity.
pub open spec fn is_live_probe(kind: Seq<char>) -> bool {
    kind == "vpn-ping"@ || kind == "vpn-pong"@
}

/// The phase transition for a probe that already matched room and peer id:
/// an unpinned session pins the sender's address (and a live kind
/// establishes at once); a pinned one establishes only on a live probe from
/// the pinned address; established and finished sessions never regress.
pub open spec fn probe_phase_step(phase: PhaseV, kind: Seq<char>, from: Seq<char>) -> PhaseV {
    match phase {
        PhaseV::Unresolved => if is_live_probe(kind) {
            PhaseV::Established { endpoint: from }
        } else {
            PhaseV::CandidateKnown { endpoint: from }
        },
        PhaseV::CandidateKnown { endpoint } => if is_live_probe(kind) && from == endpoint {
            PhaseV::Established { endpoint }
        } else {
            phase
        },
        _ => phase,
    }
}

/// The phase transition for one received datagram.
pub open spec fn datagram_phase_step(
    phase: PhaseV,
    room: Seq<char>,
    peer_id: Seq<char>,
    text: Seq<char>,
    from: Seq<char>,
) -> PhaseV {
    match parse_udp_spec(text) {
        Some((kind, msg_room, msg_client)) => if msg_room == room && msg_client == peer_id {
            probe_phase_step(phase, kind, from)
        } else {
            phase
        },
        None => phase,
    }
}

/// The reply one received datagram triggers: exactly a matching `vpn-ping`
/// is answered, with one `vpn-pong` to the sender's address.
pub open spec fn datagram_reply(
    room: Seq<char>,
    local_id: Seq<char>,
    peer_id: Seq<char>,
    text: Seq<char>,
    from: Seq<char>,
) -> Option<(Seq<char>, Seq<char>)> {
    match parse_udp_spec(text) {
        Some((kind, msg_room, msg_client)) => if msg_room == room && msg_client == peer_id && kind
            == "vpn-ping"@ {
            Some((probe_line("vpn-pong"@, room, local_id), from))
        } else {
            None
        },
        None => None,
    }
}

/// What one signaling event does to the presence table: a `presence_state`
/// snapshot merges in (its bindings win, absent keys untouched), `udp_seen`
/// upserts one peer, anything else is ignored.
pub open spec fn frame_event_peers(
    peers: Map<Seq<char>, Option<Seq<char>>>,
    event: Seq<char>,
    payload: JsonV,
) -> Map<Seq<char>, Option<Seq<char>>> {
    if event == "presence_state"@ {
        peers.union_prefer_right(presence_of_value(payload))
    } else if event == "udp_seen"@ {
        match (obj_str_field(payload, "client_id"@), obj_str_field(payload, "udp"@)) {
            (Some(cid), Some(udp)) => peers.insert(cid, Some(udp)),
            _ => peers,
        }
    } else {
        peers
    }
}

/// Candidate adoption from the presence table: an unresolved session whose
/// target peer maps to a present endpoint pins that endpoint; a pinned one
/// is never re-pinned.
pub open spec fn adopt_phase(
    phase: PhaseV,
    peers: Map<Seq<char>, Option<Seq<char>>>,
    peer_id: Seq<char>,
) -> PhaseV {
    match phase {
        PhaseV::Unresolved => if peers.contains_key(peer_id) {
            match peers[peer_id] {
                Some(ep) => PhaseV::CandidateKnown { endpoint: ep },
                None => phase,
            }
        } else {
            phase
        },
        _ => phase,
    }
}

/// The exit decision at the top of every loop iteration. Establishment with
/// no hold period configured succeeds at once; otherwise the overall
/// deadline comes first, then the hold deadline; a session that is neither
/// established nor out of time goes on.
pub open spec fn exit_spec(
    phase: PhaseV,
    hold: bool,
    deadline_elapsed: bool,
    hold_elapsed: bool,
) -> (PhaseV, Option<Outcome>) {
    match phase {
        PhaseV::Done { outcome } => (phase, Some(outcome)),
        PhaseV::Established { .. } => if !hold {
            (PhaseV::Done { outcome: Outcome::Success }, Some(Outcome::Success))
        } else if deadline_elapsed {
            (PhaseV::Done { outcome: Outcome::Timeout }, Some(Outcome::Timeout))
        } else if hold_elapsed {
            (PhaseV::Done { outcome: Outcome::Success }, Some(Outcome::Success))
        } else {
            (phase, None)
        },
        _ => if deadline_elapsed {
            (PhaseV::Done { outcome: Outcome::Timeout }, Some(Outcome::Timeout))
        } else {
            (phase, None)
        },
    }
}

/// One rendezvous session.
pub struct Session {
    /// The room both peers registered under.
    pub room: String,
    /// This client's identifier.
    pub local_id: String,
    /// The one peer this session tries to reach.
    pub peer_id: String,
    /// Whether a hold period was configured (`STAY_SECS > 0`).
    pub hold: bool,
    /// The channel heartbeat reference; strictly increasing across sends.
    pub hb_ref: u64,
    /// What the coordinator has reported about peers.
    pub peers: PresenceTable,
    /// How far the session has advanced.
    pub phase: Phase,
}

impl Session {
    /// Well-formed: the presence table is.
    pub open spec fn wf(&self) -> bool {
        self.peers.wf()
    }

    /// All of a session but its presence table and phase is as it was.
    pub open spec fn same_config(pre: Session, post: Session) -> bool {
        post.room == pre.room && post.local_id == pre.local_id && post.peer_id == pre.peer_id
            && post.hold == pre.hold && post.hb_ref == pre.hb_ref
    }

    /// A fresh session: nothing known, nothing pinned, heartbeat reference
    /// at its starting value.
    pub fn new(room: String, local_id: String, peer_id: String, hold: bool) -> (s: Session)
        ensures
            s.wf(),
            s.room == room,
            s.local_id == local_id,
            s.peer_id == peer_id,
            s.hold == hold,
            s.hb_ref == 10,
            s.peers@ == Map::<Seq<char>, Option<Seq<char>>>::empty(),
            s.phase@ is Unresolved,
    {
        Session {
            room,
            local_id,
            peer_id,
            hold,
            hb_ref: 10,
            peers: PresenceTable::new(),
            phase: Phase::Unresolved,
        }
    }

    /// The channel topic of this session's room.
    pub fn topic(&self) -> (r: String)
        ensures
            r@ == "rendezvous:"@ + self.room@,
    {
        let mut t = "rendezvous:".to_owned();
        t.append(self.room.as_str());
        t
    }

    /// The registration datagram for the coordinator. Two calls return
    /// wire-identical texts: the text is a function of room and id alone.
    pub fn registration_text(&self) -> (r: String)
        ensures
            r@ == json_text_of(registration_model(self.room@, self.local_id@)),
    {
        encode_registration(self.room.as_str(), self.local_id.as_str())
    }

    /// The join frame for the signaling channel.
    pub fn join_text(&self) -> (r: String)
        ensures
            r@ == json_text_of(join_model("rendezvous:"@ + self.room@, self.local_id@)),
    {
        let t = self.topic();
        encode_join(t.as_str(), self.local_id.as_str())
    }

    /// The next channel heartbeat: the reference strictly increases.
    pub fn next_heartbeat_text(&mut self) -> (r: String)
        requires
            old(self).hb_ref < u64::MAX,
        ensures
            final(self).hb_ref == old(self).hb_ref + 1,
            r@ == json_text_of(heartbeat_model((old(self).hb_ref + 1) as nat)),
            Session::same_config(
                Session { hb_ref: final(self).hb_ref, ..*old(self) },
                *final(self),
            ),
            final(self).peers == old(self).peers,
            final(self).phase == old(self).phase,
            final(self).wf() == old(self).wf(),
    {
        self.hb_ref = self.hb_ref + 1;
        crate::codec::encode_heartbeat(self.hb_ref)
    }

    /// This session's ping probe line.
    pub fn ping_text(&self) -> (r: String)
        ensures
            r@ == probe_line("vpn-ping"@, self.room@, self.local_id@),
    {
        encode_probe("vpn-ping", self.room.as_str(), self.local_id.as_str())
    }

    /// This session's pong probe line.
    pub fn pong_text(&self) -> (r: String)
        ensures
            r@ == probe_line("vpn-pong"@, self.room@, self.local_id@),
    {
        encode_probe("vpn-pong", self.room.as_str(), self.local_id.as_str())
    }

    /// The punch timer: while a candidate is known and not yet established,
    /// one ping to the candidate; otherwise nothing.
    pub fn on_punch_tick(&self) -> (r: Option<(String, String)>)
        ensures
            self.phase@ matches PhaseV::CandidateKnown { endpoint } ==> (r matches Some(pt)
                && pt.0@ == probe_line("vpn-ping"@, self.room@, self.local_id@) && pt.1@
                == endpoint),
            !(self.phase@ is CandidateKnown) ==> r is None,
    {
        match &self.phase {
            Phase::CandidateKnown { endpoint } => Some((self.ping_text(), endpoint.clone())),
            _ => None,
        }
    }

    /// The post-establishment keepalive timer: while established, one ping
    /// to the pinned endpoint; otherwise nothing.
    pub fn on_keepalive_tick(&self) -> (r: Option<(String, String)>)
        ensures
            self.phase@ matches PhaseV::Established { endpoint } ==> (r matches Some(pt) && pt.0@
                == probe_line("vpn-ping"@, self.room@, self.local_id@) && pt.1@ == endpoint),
            !(self.phase@ is Established) ==> r is None,
    {
        match &self.phase {
            Phase::Established { endpoint } => Some((self.ping_text(), endpoint.clone())),
            _ => None,
        }
    }

    /// Handles one received datagram: its text decoded as a probe line and
    /// fed to the state machine, with the sender's address; the returned
    /// send, if any, is one pong to the sender. Unparseable datagrams and
    /// foreign probes change nothing.
    pub fn handle_datagram(&mut self, text: &str, from: &str) -> (reply: Option<(String, String)>)
        requires
            old(self).wf(),
        ensures
            final(self).wf(),
            final(self).phase@ == datagram_phase_step(
                old(self).phase@,
                old(self).room@,
                old(self).peer_id@,
                text@,
                from@,
            ),
            Session::same_config(*old(self), *final(self)),
            final(self).peers == old(self).peers,
            match (reply, datagram_reply(
                old(self).room@,
                old(self).local_id@,
                old(self).peer_id@,
                text@,
                from@,
            )) {
                (Some(r), Some(rs)) => r.0@ == rs.0 && r.1@ == rs.1,
                (None, None) => true,
                _ => false,
            },
    {
        match parse_udp_message(text) {
            None => None,
            Some((kind, msg_room, msg_client)) => {
                let matches_room = str_eq(msg_room, self.room.as_str());
                let matches_peer = str_eq(msg_client, self.peer_id.as_str());
                if matches_room && matches_peer {
                    let is_ping = str_eq(kind, "vpn-ping");
                    let is_pong = str_eq(kind, "vpn-pong");
                    let live = is_ping || is_pong;
                    match &self.phase {
                        Phase::Unresolved => {
                            let ep = from.to_owned();
                            self.phase = if live {
                                Phase::Established { endpoint: ep }
                            } else {
                                Phase::CandidateKnown { endpoint: ep }
                            };
                        },
                        Phase::CandidateKnown { endpoint } => {
                            if live && str_eq(from, endpoint.as_str()) {
                                let ep = endpoint.clone();
                                self.phase = Phase::Established { endpoint: ep };
                            }
                        },
                        _ => {},
                    }
                    if is_ping {
                        Some((self.pong_text(), from.to_owned()))
                    } else {
                        None
                    }
                } else {
                    None
                }
            },
        }
    }

    /// Adopts a candidate from the presence table: only an unresolved
    /// session pins, and only a present endpoint is taken.
    fn adopt_candidate(&mut self)
        requires
            old(self).wf(),
        ensures
            final(self).wf(),
            final(self).phase@ == adopt_phase(
                old(self).phase@,
                old(self).peers@,
                old(self).peer_id@,
            ),
            Session::same_config(*old(self), *final(self)),
            final(self).peers == old(self).peers,
    {
        let is_unresolved = matches!(self.phase, Phase::Unresolved);
        if is_unresolved {
            match self.peers.get(self.peer_id.as_str()) {
                Some(Some(ep)) => {
                    self.phase = Phase::CandidateKnown { endpoint: ep };
                },
                _ => {},
            }
        }
    }

    /// Handles one decoded signaling frame: the event updates the presence
    /// table as `frame_event_peers` states, then an unresolved session
    /// adopts the target peer's endpoint if the table now has one.
    pub fn handle_frame(&mut self, event: &str, payload: &serde_json::Value)
        requires
            old(self).wf(),
        ensures
            final(self).wf(),
            final(self).peers@ == frame_event_peers(
                old(self).peers@,
                event@,
                val_model(*payload),
            ),
            final(self).phase@ == adopt_phase(
                old(self).phase@,
                final(self).peers@,
                old(self).peer_id@,
            ),
            Session::same_config(*old(self), *final(self)),
    {
        if str_eq(event, "presence_state") {
            let snap = crate::presence::parse_presence_state(payload);
            self.peers.merge(&snap);
        } else if str_eq(event, "udp_seen") {
            match str_field(payload, "client_id") {
                Some(cid) => match str_field(payload, "udp") {
                    Some(udp) => {
                        self.peers.upsert(cid, Some(udp));
                    },
                    None => {},
                },
                None => {},
            }
        }
        self.adopt_candidate();
    }

    /// Handles one raw channel text: decoded as a signaling frame and
    /// dispatched; text that is not a frame changes nothing.
    pub fn handle_channel_text(&mut self, txt: &str)
        requires
            old(self).wf(),
        ensures
            final(self).wf(),
            Session::same_config(*old(self), *final(self)),
            match frame_of_text(txt@) {
                Some((topic, event, payload)) => final(self).peers@ == frame_event_peers(
                    old(self).peers@,
                    event,
                    payload,
                ) && final(self).phase@ == adopt_phase(
                    old(self).phase@,
                    final(self).peers@,
                    old(self).peer_id@,
                ),
                None => final(self).peers == old(self).peers && final(self).phase
                    == old(self).phase,
            },
    {
        match parse_phoenix_v2_message(txt) {
            None => {},
            Some((_topic, event, payload)) => {
                self.handle_frame(event.as_str(), &payload);
            },
        }
    }

    /// The exit decision, exactly as `exit_spec` states: `Some` ends the
    /// loop with that outcome, and the phase records it.
    pub fn check_exit(&mut self, deadline_elapsed: bool, hold_elapsed: bool) -> (r: Option<
        Outcome,
    >)
        requires
            old(self).wf(),
        ensures
            final(self).wf(),
            final(self).phase@ == exit_spec(
                old(self).phase@,
                old(self).hold,
                deadline_elapsed,
                hold_elapsed,
            ).0,
            r == exit_spec(old(self).phase@, old(self).hold, deadline_elapsed, hold_elapsed).1,
            Session::same_config(*old(self), *final(self)),
            final(self).peers == old(self).peers,
    {
        match &self.phase {
            Phase::Done { outcome } => Some(*outcome),
            Phase::Established { .. } => {
                if !self.hold {
                    self.phase = Phase::Done { outcome: Outcome::Success };
                    Some(Outcome::Success)
                } else if deadline_elapsed {
                    self.phase = Phase::Done { outcome: Outcome::Timeout };
                    Some(Outcome::Timeout)
                } else if hold_elapsed {
                    self.phase = Phase::Done { outcome: Outcome::Success };
                    Some(Outcome::Success)
                } else {
                    None
                }
            },
            _ => {
                if deadline_elapsed {
                    self.phase = Phase::Done { outcome: Outcome::Timeout };
                    Some(Outcome::Timeout)
                } else {
                    None
                }
            },
        }
    }

    /// The failure line of a timed-out session, naming both identifiers.
    pub fn timeout_message(&self) -> (r: String)
        ensures
            r@ == self.local_id@ + " timed out waiting for direct udp with peer "@
                + self.peer_id@,
    {
        let mut m = self.local_id.clone();
        m.append(" timed out waiting for direct udp with peer ");
        m.append(self.peer_id.as_str());
        proof {
            assert(m@ =~= self.local_id@ + " timed out waiting for direct udp with peer "@
                + self.peer_id@);
        }
        m
    }
}

/// Law: the phase only advances, whatever a datagram, a presence adoption or
/// an exit check does; and an endpoint, once pinned, is never replaced: a
/// datagram keeps it, and adoption does nothing to a pinned session.
pub proof fn lemma_phase_monotonic(
    phase: PhaseV,
    room: Seq<char>,
    peer_id: Seq<char>,
    text: Seq<char>,
    from: Seq<char>,
    peers: Map<Seq<char>, Option<Seq<char>>>,
    hold: bool,
    deadline_elapsed: bool,
    hold_elapsed: bool,
)
    ensures
        phase_rank(datagram_phase_step(phase, room, peer_id, text, from)) >= phase_rank(phase),
        phase_rank(adopt_phase(phase, peers, peer_id)) >= phase_rank(phase),
        phase_rank(exit_spec(phase, hold, deadline_elapsed, hold_elapsed).0) >= phase_rank(phase),
        pinned(phase) matches Some(e) ==> pinned(
            datagram_phase_step(phase, room, peer_id, text, from),
        ) == Some(e),
        pinned(phase) is Some ==> adopt_phase(phase, peers, peer_id) == phase,
{
}

/// Law: a live probe from the not-yet-pinned target peer, matching room and
/// peer id, establishes in one step, skipping the punch phase, and a
/// matching ping is answered with exactly one pong to the observed sender.
pub proof fn lemma_unresolved_ping_establishes(
    room: Seq<char>,
    local_id: Seq<char>,
    peer_id: Seq<char>,
    text: Seq<char>,
    from: Seq<char>,
)
    requires
        parse_udp_spec(text) == Some(("vpn-ping"@, room, peer_id)),
    ensures
        datagram_phase_step(PhaseV::Unresolved, room, peer_id, text, from)
            == (PhaseV::Established { endpoint: from }),
        datagram_reply(room, local_id, peer_id, text, from) == Some(
            (probe_line("vpn-pong"@, room, local_id), from),
        ),
{
}

/// Law: the wire form of `lemma_unresolved_ping_establishes`: the ping line
/// this library itself encodes, received from an unresolved peer, does the
/// same. Room and id must be whitespace-free and nonempty, as tokens are.
pub proof fn lemma_ping_line_establishes(
    room: Seq<char>,
    local_id: Seq<char>,
    peer_id: Seq<char>,
    from: Seq<char>,
)
    requires
        crate::codec::is_token(room),
        crate::codec::is_token(peer_id),
    ensures
        datagram_phase_step(
            PhaseV::Unresolved,
            room,
            peer_id,
            probe_line("vpn-ping"@, room, peer_id),
            from,
        ) == (PhaseV::Established { endpoint: from }),
        datagram_reply(room, local_id, peer_id, probe_line("vpn-ping"@, room, peer_id), from)
            == Some((probe_line("vpn-pong"@, room, local_id), from)),
{
    reveal_strlit("vpn-ping");
    assert(crate::codec::is_token("vpn-ping"@)) by {
        assert forall|i: int| 0 <= i < "vpn-ping"@.len() implies !crate::codec::is_space(
            #[trigger] "vpn-ping"@[i],
        ) by {
            assert("vpn-ping"@.len() == 8);
            if i == 0 {
            } else if i == 1 {
            } else if i == 2 {
            } else if i == 3 {
            } else if i == 4 {
            } else if i == 5 {
            } else if i == 6 {
            } else {
                assert(i == 7);
            }
        }
    }
    crate::codec::lemma_probe_round_trip("vpn-ping"@, room, peer_id);
}

/// Law: an established session with no hold period configured ends in
/// success at the very next exit check, whatever the clocks say.
pub proof fn lemma_established_exits_at_once(
    endpoint: Seq<char>,
    deadline_elapsed: bool,
    hold_elapsed: bool,
)
    ensures
        exit_spec(PhaseV::Established { endpoint }, false, deadline_elapsed, hold_elapsed) == ((
            PhaseV::Done { outcome: Outcome::Success },
            Some(Outcome::Success),
        )),
{
}

/// Law: registration is idempotent on the wire: any two registration texts
/// of one room and id are identical.
pub proof fn lemma_registration_idempotent(
    room: Seq<char>,
    local_id: Seq<char>,
    t1: Seq<char>,
    t2: Seq<char>,
)
    requires
        t1 == json_text_of(registration_model(room, local_id)),
        t2 == json_text_of(registration_model(room, local_id)),
    ensures
        t1 == t2,
{
}

/// Law: a replayed matching pong after establishment changes nothing and
/// triggers no reply; only a ping is answered.
pub proof fn lemma_duplicate_pong_ignored(
    endpoint: Seq<char>,
    room: Seq<char>,
    local_id: Seq<char>,
    peer_id: Seq<char>,
    text: Seq<char>,
    from: Seq<char>,
)
    requires
        parse_udp_spec(text) == Some(("vpn-pong"@, room, peer_id)),
    ensures
        datagram_phase_step(PhaseV::Established { endpoint }, room, peer_id, text, from)
            == (PhaseV::Established { endpoint }),
        datagram_reply(room, local_id, peer_id, text, from) is None,
{
    reveal_strlit("vpn-ping");
    reveal_strlit("vpn-pong");
    assert("vpn-pong"@ != "vpn-ping"@) by {
        assert("vpn-pong"@[4] == 'p' && "vpn-ping"@[4] == 'p');
        assert("vpn-pong"@[5] != "vpn-ping"@[5]);
    }
}

/// Whether the signaling connect loop may try again: only while the overall
/// deadline has not elapsed.
pub fn should_retry_connect(elapsed_ms: u64, timeout_ms: u64) -> (r: bool)
    ensures
        r == (elapsed_ms < timeout_ms),
{
    elapsed_ms < timeout_ms
}

} // verus!
