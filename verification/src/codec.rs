//! Wire codecs: signaling frames, probe lines, and the JSON texts the client
//! sends.
//!
//! A signaling frame is a 5-element JSON array `[join_ref, ref, topic, event,
//! payload]`; only topic, event and payload are used. A probe line is the
//! plaintext `"<kind> <room> <client_id>"`. Malformed input is never an
//! error: decoding yields `None` and the datagram or frame is dropped.

use vstd::prelude::*;
use vstd::string::StrSliceExecFns;
use vstd::string::StringExecFns;

use crate::json::{
    json_of, json_text_of, parse_value, str_lt, val_arr, val_as_array, val_as_str, val_model,
    val_obj, val_str, val_to_text, value_clone, JsonV,
};
use crate::text::{dec_str_of, u64_to_string};

verus! {

/// The fields of a signaling frame: a JSON array of at least five elements
/// whose third and fourth elements are strings yields (topic, event,
/// payload); everything else yields nothing.
pub open spec fn frame_of(j: JsonV) -> Option<(Seq<char>, Seq<char>, JsonV)> {
    match j {
        JsonV::Arr(es) => {
            if es.len() >= 5 {
                match (es[2], es[3]) {
                    (JsonV::Str(t), JsonV::Str(e)) => Some((t, e, es[4])),
                    _ => None,
                }
            } else {
                None
            }
        },
        _ => None,
    }
}

/// What decoding a signaling text yields: the frame fields of the parsed
/// JSON value, or nothing where the text is not JSON.
pub open spec fn frame_of_text(s: Seq<char>) -> Option<(Seq<char>, Seq<char>, JsonV)> {
    match json_of(s) {
        Some(j) => frame_of(j),
        None => None,
    }
}

/// Extracts (topic, event, payload) from a decoded signaling frame, exactly
/// as `frame_of` states.
pub fn frame_fields(v: &serde_json::Value) -> (r: Option<(String, String, serde_json::Value)>)
    ensures
        r matches Some((t, e, p)) ==> frame_of(val_model(*v)) == Some((t@, e@, val_model(p))),
        r is None ==> frame_of(val_model(*v)) is None,
{
    match val_as_array(v) {
        None => None,
        Some(arr) => {
            if arr.len() < 5 {
                None
            } else {
                match (val_as_str(&arr[2]), val_as_str(&arr[3])) {
                    (Some(t), Some(e)) => {
                        let payload = value_clone(&arr[4]);
                        Some((t.to_owned(), e.to_owned(), payload))
                    },
                    _ => None,
                }
            }
        },
    }
}

/// Decodes one signaling frame from channel text, exactly as
/// `frame_of_text` states.
pub fn parse_phoenix_v2_message(txt: &str) -> (r: Option<(String, String, serde_json::Value)>)
    ensures
        r matches Some((t, e, p)) ==> frame_of_text(txt@) == Some((t@, e@, val_model(p))),
        r is None ==> frame_of_text(txt@) is None,
{
    match parse_value(txt) {
        None => None,
        Some(v) => frame_fields(&v),
    }
}

/// Law: extraction recovers exactly the topic, event and payload of every
/// well-formed 5-element frame; an array of fewer than five elements, or one
/// whose topic or event is not a string, yields no frame.
pub proof fn lemma_frame_fields_exact(
    join_ref: JsonV,
    msg_ref: JsonV,
    topic: Seq<char>,
    event: Seq<char>,
    payload: JsonV,
    es: Seq<JsonV>,
)
    ensures
        frame_of(
            JsonV::Arr(seq![join_ref, msg_ref, JsonV::Str(topic), JsonV::Str(event), payload]),
        ) == Some((topic, event, payload)),
        es.len() < 5 ==> frame_of(JsonV::Arr(es)) is None,
        es.len() >= 5 && !(es[2] matches JsonV::Str(_) && es[3] matches JsonV::Str(_))
            ==> frame_of(JsonV::Arr(es)) is None,
{
}

/// The registration object `{"client_id": ..., "room": ...}`; the entries
/// stand in the key order of `serde_json`'s map.
pub open spec fn registration_model(room: Seq<char>, client_id: Seq<char>) -> JsonV {
    JsonV::Obj(seq![("client_id"@, JsonV::Str(client_id)), ("room"@, JsonV::Str(room))])
}

/// Encodes the registration message sent to the coordinator over UDP.
pub fn encode_registration(room: &str, client_id: &str) -> (r: String)
    ensures
        r@ == json_text_of(registration_model(room@, client_id@)),
{
    let mut entries: Vec<(String, serde_json::Value)> = Vec::new();
    entries.push(("client_id".to_owned(), val_str(client_id)));
    entries.push(("room".to_owned(), val_str(room)));
    proof {
        reveal_strlit("client_id");
        reveal_strlit("room");
        assert(str_lt("client_id"@, "room"@));
    }
    let v = val_obj(entries);
    proof {
        assert(Seq::new(2, |i: int| (entries@[i].0@, val_model(entries@[i].1))) =~= seq![
            ("client_id"@, JsonV::Str(client_id@)),
            ("room"@, JsonV::Str(room@)),
        ]);
    }
    val_to_text(&v)
}

/// The join frame `["1", "1", topic, "phx_join", {"client_id": ...}]`.
pub open spec fn join_model(topic: Seq<char>, client_id: Seq<char>) -> JsonV {
    JsonV::Arr(
        seq![
            JsonV::Str("1"@),
            JsonV::Str("1"@),
            JsonV::Str(topic),
            JsonV::Str("phx_join"@),
            JsonV::Obj(seq![("client_id"@, JsonV::Str(client_id))]),
        ],
    )
}

/// Encodes the frame that joins the session's topic on the signaling channel.
pub fn encode_join(topic: &str, client_id: &str) -> (r: String)
    ensures
        r@ == json_text_of(join_model(topic@, client_id@)),
{
    let mut payload_entries: Vec<(String, serde_json::Value)> = Vec::new();
    payload_entries.push(("client_id".to_owned(), val_str(client_id)));
    let payload = val_obj(payload_entries);
    proof {
        assert(Seq::new(1, |i: int| (payload_entries@[i].0@, val_model(payload_entries@[i].1)))
            =~= seq![("client_id"@, JsonV::Str(client_id@))]);
    }
    let mut elems: Vec<serde_json::Value> = Vec::new();
    elems.push(val_str("1"));
    elems.push(val_str("1"));
    elems.push(val_str(topic));
    elems.push(val_str("phx_join"));
    elems.push(payload);
    let v = val_arr(elems);
    proof {
        assert(Seq::new(5, |i: int| val_model(elems@[i])) =~= seq![
            JsonV::Str("1"@),
            JsonV::Str("1"@),
            JsonV::Str(topic@),
            JsonV::Str("phx_join"@),
            JsonV::Obj(seq![("client_id"@, JsonV::Str(client_id@))]),
        ]);
    }
    val_to_text(&v)
}

/// The heartbeat frame `["0", "<n>", "phoenix", "heartbeat", {}]`.
pub open spec fn heartbeat_model(n: nat) -> JsonV {
    JsonV::Arr(
        seq![
            JsonV::Str("0"@),
            JsonV::Str(dec_str_of(n)),
            JsonV::Str("phoenix"@),
            JsonV::Str("heartbeat"@),
            JsonV::Obj(Seq::empty()),
        ],
    )
}

/// Encodes the channel heartbeat frame carrying the reference number `n`.
pub fn encode_heartbeat(n: u64) -> (r: String)
    ensures
        r@ == json_text_of(heartbeat_model(n as nat)),
{
    let num = u64_to_string(n);
    let no_entries: Vec<(String, serde_json::Value)> = Vec::new();
    let empty = val_obj(no_entries);
    proof {
        assert(Seq::new(no_entries@.len(), |i: int| (no_entries@[i].0@, val_model(no_entries@[i].1)))
            =~= Seq::<(Seq<char>, JsonV)>::empty());
    }
    let mut elems: Vec<serde_json::Value> = Vec::new();
    elems.push(val_str("0"));
    elems.push(val_str(num.as_str()));
    elems.push(val_str("phoenix"));
    elems.push(val_str("heartbeat"));
    elems.push(empty);
    let v = val_arr(elems);
    proof {
        assert(Seq::new(5, |i: int| val_model(elems@[i])) =~= seq![
            JsonV::Str("0"@),
            JsonV::Str(dec_str_of(n as nat)),
            JsonV::Str("phoenix"@),
            JsonV::Str("heartbeat"@),
            JsonV::Obj(Seq::empty()),
        ]);
    }
    val_to_text(&v)
}

/// Whitespace for probe lines: the ASCII whitespace characters.
pub open spec fn is_space(c: char) -> bool {
    c == ' ' || c == '\t' || c == '\n' || c == '\r' || c == '\u{b}' || c == '\u{c}'
}

/// Decides `is_space`.
fn is_space_char(c: char) -> (r: bool)
    ensures
        r == is_space(c),
{
    c == ' ' || c == '\t' || c == '\n' || c == '\r' || c == '\u{b}' || c == '\u{c}'
}

/// The whitespace-separated tokens of a text, in order: each token a maximal
/// run of non-whitespace characters.
pub open spec fn tokens_of(s: Seq<char>) -> Seq<Seq<char>>
    decreases s.len(),
{
    if s.len() == 0 {
        Seq::empty()
    } else {
        let rest = tokens_of(s.drop_last());
        let c = s.last();
        if is_space(c) {
            rest
        } else if s.len() >= 2 && !is_space(s[s.len() - 2]) {
            rest.update(rest.len() - 1, rest.last().push(c))
        } else {
            rest.push(seq![c])
        }
    }
}

/// What decoding a probe line yields: exactly three tokens, recovered
/// verbatim; any other token count yields nothing.
pub open spec fn parse_udp_spec(s: Seq<char>) -> Option<(Seq<char>, Seq<char>, Seq<char>)> {
    let ts = tokens_of(s);
    if ts.len() == 3 {
        Some((ts[0], ts[1], ts[2]))
    } else {
        None
    }
}

/// The texts of a sequence of token spans within `s`.
spec fn span_tokens(spans: Seq<(usize, usize)>, s: Seq<char>) -> Seq<Seq<char>> {
    Seq::new(spans.len(), |k: int| s.subrange(spans[k].0 as int, spans[k].1 as int))
}

/// Decodes one probe line `"<kind> <room> <client_id>"`, exactly as
/// `parse_udp_spec` states.
pub fn parse_udp_message(s: &str) -> (r: Option<(&str, &str, &str)>)
    ensures
        r matches Some((kind, room, client_id)) ==> parse_udp_spec(s@) == Some(
            (kind@, room@, client_id@),
        ),
        r is None ==> parse_udp_spec(s@) is None,
{
    let n = s.unicode_len();
    let mut spans: Vec<(usize, usize)> = Vec::new();
    let mut i: usize = 0;
    let mut in_tok = false;
    let mut start: usize = 0;
    while i < n
        invariant
            n == s@.len(),
            i <= n,
            forall|k: int|
                0 <= k < spans@.len() ==> (#[trigger] spans@[k]).0 < spans@[k].1 <= i,
            !in_tok ==> tokens_of(s@.take(i as int)) == span_tokens(spans@, s@) && (i == 0
                || is_space(s@[i as int - 1])),
            in_tok ==> start < i && !is_space(s@[i as int - 1]) && tokens_of(s@.take(i as int))
                == span_tokens(spans@, s@).push(s@.subrange(start as int, i as int)),
        decreases n - i,
    {
        let ghost old_spans = spans@;
        let ghost old_in_tok = in_tok;
        let ghost old_start = start;
        let c = s.get_char(i);
        if is_space_char(c) {
            if in_tok {
                spans.push((start, i));
                in_tok = false;
            }
        } else {
            if !in_tok {
                start = i;
                in_tok = true;
            }
        }
        i += 1;
        proof {
            let j = i as int - 1;
            assert(s@.take(j + 1).drop_last() =~= s@.take(j));
            assert(s@.take(j + 1).last() == s@[j]);
            if is_space(s@[j]) {
                if old_in_tok {
                    assert(span_tokens(spans@, s@) =~= span_tokens(old_spans, s@).push(
                        s@.subrange(old_start as int, j),
                    ));
                }
            } else {
                if old_in_tok {
                    assert(j >= 1 && !is_space(s@.take(j + 1)[j - 1]));
                    let rest = tokens_of(s@.take(j));
                    assert(s@.subrange(old_start as int, j + 1) =~= s@.subrange(
                        old_start as int,
                        j,
                    ).push(s@[j]));
                    assert(rest.update(rest.len() - 1, rest.last().push(s@[j])) =~= span_tokens(
                        spans@,
                        s@,
                    ).push(s@.subrange(old_start as int, j + 1)));
                } else {
                    assert(s@.subrange(j, j + 1) =~= seq![s@[j]]);
                    assert(tokens_of(s@.take(j + 1)) == tokens_of(s@.take(j)).push(seq![s@[j]]));
                }
            }
        }
    }
    if in_tok {
        let ghost old_spans = spans@;
        let ghost old_start = start;
        spans.push((start, n));
        proof {
            assert(span_tokens(spans@, s@) =~= span_tokens(old_spans, s@).push(
                s@.subrange(old_start as int, n as int),
            ));
        }
    }
    proof {
        assert(s@.take(n as int) =~= s@);
        assert(tokens_of(s@) == span_tokens(spans@, s@));
    }
    if spans.len() == 3 {
        let t0 = s.substring_char(spans[0].0, spans[0].1);
        let t1 = s.substring_char(spans[1].0, spans[1].1);
        let t2 = s.substring_char(spans[2].0, spans[2].1);
        proof {
            assert(span_tokens(spans@, s@)[0] == s@.subrange(
                spans@[0].0 as int,
                spans@[0].1 as int,
            ));
            assert(span_tokens(spans@, s@)[1] == s@.subrange(
                spans@[1].0 as int,
                spans@[1].1 as int,
            ));
            assert(span_tokens(spans@, s@)[2] == s@.subrange(
                spans@[2].0 as int,
                spans@[2].1 as int,
            ));
        }
        Some((t0, t1, t2))
    } else {
        None
    }
}

/// A probe token: nonempty, without whitespace.
pub open spec fn is_token(s: Seq<char>) -> bool {
    s.len() > 0 && forall|i: int| 0 <= i < s.len() ==> !is_space(#[trigger] s[i])
}

proof fn lemma_tokens_append_space(s: Seq<char>, c: char)
    requires
        is_space(c),
    ensures
        tokens_of(s.push(c)) == tokens_of(s),
{
    assert(s.push(c).drop_last() =~= s);
}

proof fn lemma_tokens_append_token(s: Seq<char>, t: Seq<char>)
    requires
        is_token(t),
        s.len() == 0 || is_space(s.last()),
    ensures
        tokens_of(s + t) == tokens_of(s).push(t),
    decreases t.len(),
{
    let st = s + t;
    if t.len() == 1 {
        assert(st.drop_last() =~= s);
        assert(st.last() == t[0]);
        if s.len() > 0 {
            assert(st[st.len() - 2] == s.last());
        }
        assert(seq![t[0]] =~= t);
    } else {
        let t2 = t.drop_last();
        assert(is_token(t2)) by {
            assert(forall|i: int| 0 <= i < t2.len() ==> t2[i] == #[trigger] t[i]);
        }
        lemma_tokens_append_token(s, t2);
        assert(st.drop_last() =~= s + t2);
        assert(st.last() == t.last());
        assert(st[st.len() - 2] == t[t.len() - 2]);
        let rest = tokens_of(s + t2);
        assert(rest.last() == t2);
        assert(rest.update(rest.len() - 1, t2.push(t.last())) =~= tokens_of(s).push(
            t2.push(t.last()),
        ));
        assert(t2.push(t.last()) =~= t);
    }
}

/// Law: a probe line built of three tokens decodes back to exactly those
/// tokens, verbatim.
pub proof fn lemma_probe_round_trip(kind: Seq<char>, room: Seq<char>, id: Seq<char>)
    requires
        is_token(kind),
        is_token(room),
        is_token(id),
    ensures
        parse_udp_spec(kind + " "@ + room + " "@ + id) == Some((kind, room, id)),
{
    reveal_strlit(" ");
    let sp = " "@;
    assert(sp =~= seq![' ']);
    let s0 = Seq::<char>::empty();
    assert(s0 + kind =~= kind);
    lemma_tokens_append_token(s0, kind);
    assert(tokens_of(kind) =~= seq![kind]);
    let s1 = kind + sp;
    assert(s1 =~= kind.push(' '));
    lemma_tokens_append_space(kind, ' ');
    assert(s1.last() == ' ');
    let s2 = s1 + room;
    lemma_tokens_append_token(s1, room);
    assert(tokens_of(s2) =~= seq![kind, room]);
    let s3 = s2 + sp;
    assert(s3 =~= s2.push(' '));
    lemma_tokens_append_space(s2, ' ');
    assert(s3.last() == ' ');
    let s4 = s3 + id;
    lemma_tokens_append_token(s3, id);
    assert(tokens_of(s4) =~= seq![kind, room, id]);
    assert(kind + " "@ + room + " "@ + id =~= s4);
    assert(tokens_of(s4)[0] == kind && tokens_of(s4)[1] == room && tokens_of(s4)[2] == id);
}

/// Encodes one probe line `"<kind> <room> <client_id>"`.
pub fn encode_probe(kind: &str, room: &str, client_id: &str) -> (r: String)
    ensures
        r@ == kind@ + " "@ + room@ + " "@ + client_id@,
{
    let mut s = kind.to_owned();
    s.append(" ");
    s.append(room);
    s.append(" ");
    s.append(client_id);
    proof {
        assert(s@ =~= kind@ + " "@ + room@ + " "@ + client_id@);
    }
    s
}

} // verus!
