//! The peer presence table: peer id → optional observed UDP endpoint.
//!
//! Entries are inserted or overwritten, last write wins, and never deleted
//! during a session. The table is fed by two channel events: a full presence
//! snapshot (bulk merge that leaves absent keys untouched) and an incremental
//! single-key upsert.

use vstd::prelude::*;
use vstd::string::StringExecFns;

use crate::json::{obj_field, obj_str_field, val_as_array, val_get, val_model, val_object_entries,
    val_as_str, JsonV};

verus! {

/// The view of an optional endpoint.
pub open spec fn opt_view(o: Option<String>) -> Option<Seq<char>> {
    match o {
        Some(s) => Some(s@),
        None => None,
    }
}

/// The map described by a sequence of entries, later entries winning.
pub open spec fn map_of_entries(es: Seq<(Seq<char>, Option<Seq<char>>)>) -> Map<
    Seq<char>,
    Option<Seq<char>>,
>
    decreases es.len(),
{
    if es.len() == 0 {
        Map::empty()
    } else {
        map_of_entries(es.drop_last()).insert(es.last().0, es.last().1)
    }
}

/// The views of a table's entries.
pub open spec fn entry_views(es: Seq<(String, Option<String>)>) -> Seq<
    (Seq<char>, Option<Seq<char>>),
> {
    Seq::new(es.len(), |i: int| (es[i].0@, opt_view(es[i].1)))
}

/// No two entries share a key.
pub open spec fn keys_unique(es: Seq<(Seq<char>, Option<Seq<char>>)>) -> bool {
    forall|i: int, j: int| 0 <= i < j < es.len() ==> es[i].0 != es[j].0
}

proof fn lemma_map_of_contains(es: Seq<(Seq<char>, Option<Seq<char>>)>, k: Seq<char>)
    ensures
        map_of_entries(es).contains_key(k) <==> exists|i: int| 0 <= i < es.len() && es[i].0 == k,
    decreases es.len(),
{
    if es.len() > 0 {
        lemma_map_of_contains(es.drop_last(), k);
        if es.last().0 == k {
            assert(es[es.len() - 1].0 == k);
        } else if map_of_entries(es).contains_key(k) {
            let i = choose|i: int| 0 <= i < es.len() - 1 && es.drop_last()[i].0 == k;
            assert(es[i].0 == k);
        } else if exists|i: int| 0 <= i < es.len() && es[i].0 == k {
            let i = choose|i: int| 0 <= i < es.len() && es[i].0 == k;
            assert(es.drop_last()[i].0 == k);
        }
    }
}

proof fn lemma_map_of_get(es: Seq<(Seq<char>, Option<Seq<char>>)>, k: Seq<char>, i: int)
    requires
        keys_unique(es),
        0 <= i < es.len(),
        es[i].0 == k,
    ensures
        map_of_entries(es).contains_key(k),
        map_of_entries(es)[k] == es[i].1,
    decreases es.len(),
{
    if i < es.len() - 1 {
        assert(keys_unique(es.drop_last()));
        assert(es.drop_last()[i] == es[i]);
        lemma_map_of_get(es.drop_last(), k, i);
        assert(es.last().0 != k);
    }
}

proof fn lemma_map_of_update(
    es: Seq<(Seq<char>, Option<Seq<char>>)>,
    i: int,
    k: Seq<char>,
    v: Option<Seq<char>>,
)
    requires
        keys_unique(es),
        0 <= i < es.len(),
        es[i].0 == k,
    ensures
        map_of_entries(es.update(i, (k, v))) == map_of_entries(es).insert(k, v),
    decreases es.len(),
{
    let es2 = es.update(i, (k, v));
    if i == es.len() - 1 {
        assert(es2.drop_last() =~= es.drop_last());
        assert(map_of_entries(es.drop_last()).insert(k, es.last().1).insert(k, v)
            =~= map_of_entries(es.drop_last()).insert(k, v));
    } else {
        assert(keys_unique(es.drop_last()));
        assert(es.drop_last()[i] == es[i]);
        lemma_map_of_update(es.drop_last(), i, k, v);
        assert(es2.drop_last() =~= es.drop_last().update(i, (k, v)));
        assert(es2.last() == es.last());
        assert(es.last().0 != k);
        assert(map_of_entries(es.drop_last()).insert(k, v).insert(es.last().0, es.last().1)
            =~= map_of_entries(es.drop_last()).insert(es.last().0, es.last().1).insert(k, v));
    }
}

/// The in-memory presence table.
pub struct PresenceTable {
    pub entries: Vec<(String, Option<String>)>,
}

impl View for PresenceTable {
    type V = Map<Seq<char>, Option<Seq<char>>>;

    open spec fn view(&self) -> Map<Seq<char>, Option<Seq<char>>> {
        map_of_entries(entry_views(self.entries@))
    }
}

impl PresenceTable {
    /// Well-formed: no key appears twice.
    pub open spec fn wf(&self) -> bool {
        keys_unique(entry_views(self.entries@))
    }

    /// An empty table.
    pub fn new() -> (r: PresenceTable)
        ensures
            r.wf(),
            r@ == Map::<Seq<char>, Option<Seq<char>>>::empty(),
    {
        let r = PresenceTable { entries: Vec::new() };
        proof {
            assert(entry_views(r.entries@) =~= Seq::empty());
        }
        r
    }

    /// Looks a peer up; `None` where the peer was never reported.
    pub fn get(&self, key: &str) -> (r: Option<Option<String>>)
        requires
            self.wf(),
        ensures
            r matches Some(v) ==> self@.contains_key(key@) && self@[key@] == opt_view(v),
            r is None ==> !self@.contains_key(key@),
    {
        let ghost ev = entry_views(self.entries@);
        let key_s = key.to_owned();
        let n = self.entries.len();
        let mut i: usize = 0;
        while i < n
            invariant
                n == self.entries@.len(),
                i <= n,
                self.wf(),
                key_s@ == key@,
                ev == entry_views(self.entries@),
                forall|j: int| 0 <= j < i ==> ev[j].0 != key@,
            decreases n - i,
        {
            if self.entries[i].0 == key_s {
                let r = match &self.entries[i].1 {
                    Some(s) => Some(s.clone()),
                    None => None,
                };
                proof {
                    lemma_map_of_get(ev, key@, i as int);
                }
                return Some(r);
            }
            i += 1;
        }
        proof {
            lemma_map_of_contains(ev, key@);
        }
        None
    }

    /// Inserts or overwrites one peer's endpoint: last write wins.
    pub fn upsert(&mut self, key: String, val: Option<String>)
        requires
            old(self).wf(),
        ensures
            final(self).wf(),
            final(self)@ == old(self)@.insert(key@, opt_view(val)),
    {
        let ghost ev = entry_views(old(self).entries@);
        let n = self.entries.len();
        let mut i: usize = 0;
        while i < n
            invariant
                n == self.entries@.len(),
                i <= n,
                self.wf(),
                self.entries@ == old(self).entries@,
                ev == entry_views(self.entries@),
                forall|j: int| 0 <= j < i ==> ev[j].0 != key@,
            decreases n - i,
        {
            if self.entries[i].0 == key {
                self.entries[i] = (key, val);
                proof {
                    assert(entry_views(self.entries@) =~= ev.update(
                        i as int,
                        (key@, opt_view(val)),
                    ));
                    lemma_map_of_update(ev, i as int, key@, opt_view(val));
                    assert(keys_unique(entry_views(self.entries@)));
                }
                return ;
            }
            i += 1;
        }
        self.entries.push((key, val));
        proof {
            let nv = entry_views(self.entries@);
            assert(nv.drop_last() =~= ev);
            assert(nv.last() == (key@, opt_view(val)));
            lemma_map_of_contains(ev, key@);
            assert forall|a: int, b: int| 0 <= a < b < nv.len() implies nv[a].0 != nv[b].0 by {
                if b < nv.len() - 1 {
                    assert(nv[a] == ev[a] && nv[b] == ev[b]);
                } else {
                    assert(nv[a] == ev[a] && nv[b].0 == key@);
                }
            }
        }
    }

    /// Merges another table in: every entry of `other` is upserted, in order,
    /// so `other`'s bindings win and keys absent from `other` are untouched.
    pub fn merge(&mut self, other: &PresenceTable)
        requires
            old(self).wf(),
            other.wf(),
        ensures
            final(self).wf(),
            final(self)@ == old(self)@.union_prefer_right(other@),
    {
        let ghost oev = entry_views(other.entries@);
        let n = other.entries.len();
        let mut i: usize = 0;
        while i < n
            invariant
                n == other.entries@.len(),
                other.wf(),
                oev == entry_views(other.entries@),
                i <= n,
                self.wf(),
                self@ == old(self)@.union_prefer_right(map_of_entries(oev.take(i as int))),
            decreases n - i,
        {
            let key = other.entries[i].0.clone();
            let val = match &other.entries[i].1 {
                Some(s) => Some(s.clone()),
                None => None,
            };
            self.upsert(key, val);
            proof {
                assert(oev.take(i + 1).drop_last() =~= oev.take(i as int));
                assert(oev.take(i + 1).last() == oev[i as int]);
                assert(old(self)@.union_prefer_right(map_of_entries(oev.take(i as int))).insert(
                    oev[i as int].0,
                    oev[i as int].1,
                ) =~= old(self)@.union_prefer_right(map_of_entries(oev.take(i + 1))));
            }
            i += 1;
        }
        proof {
            assert(oev.take(n as int) =~= oev);
        }
    }
}

/// What one presence entry reports: the `udp` string field of the first
/// element of the entry's `metas` list, where that shape is present.
pub open spec fn meta_udp_of(j: JsonV) -> Option<Seq<char>> {
    match obj_field(j, "metas"@) {
        Some(JsonV::Arr(ms)) => if ms.len() > 0 {
            obj_str_field(ms[0], "udp"@)
        } else {
            None
        },
        _ => None,
    }
}

/// The presence map described by a snapshot object: every key of the object,
/// bound to what its entry reports.
pub open spec fn presence_of(entries: Seq<(Seq<char>, JsonV)>) -> Map<
    Seq<char>,
    Option<Seq<char>>,
>
    decreases entries.len(),
{
    if entries.len() == 0 {
        Map::empty()
    } else {
        presence_of(entries.drop_last()).insert(
            entries.last().0,
            meta_udp_of(entries.last().1),
        )
    }
}

/// The presence map of a payload: of a non-object payload, empty.
pub open spec fn presence_of_value(j: JsonV) -> Map<Seq<char>, Option<Seq<char>>> {
    match j {
        JsonV::Obj(es) => presence_of(es),
        _ => Map::empty(),
    }
}

/// Extracts what one presence entry reports, exactly as `meta_udp_of` states.
fn meta_udp(x: &serde_json::Value) -> (r: Option<String>)
    ensures
        r matches Some(u) ==> meta_udp_of(val_model(*x)) == Some(u@),
        r is None ==> meta_udp_of(val_model(*x)) is None,
{
    match val_get(x, "metas") {
        None => None,
        Some(metas) => match val_as_array(metas) {
            None => None,
            Some(arr) => {
                if arr.len() == 0 {
                    None
                } else {
                    match val_get(&arr[0], "udp") {
                        None => None,
                        Some(u) => match val_as_str(u) {
                            None => None,
                            Some(s) => Some(s.to_owned()),
                        },
                    }
                }
            },
        },
    }
}

/// Decodes a presence snapshot payload into a table, exactly as
/// `presence_of_value` states. Entries lacking the `metas`/`udp` shape yield
/// an absent endpoint, never an error.
pub fn parse_presence_state(v: &serde_json::Value) -> (out: PresenceTable)
    ensures
        out.wf(),
        out@ == presence_of_value(val_model(*v)),
{
    let mut out = PresenceTable::new();
    match val_object_entries(v) {
        None => out,
        Some(es) => {
            let ghost ms = Seq::new(es@.len(), |i: int| (es@[i].0@, val_model(*es@[i].1)));
            let n = es.len();
            let mut i: usize = 0;
            while i < n
                invariant
                    n == es@.len(),
                    i <= n,
                    ms == Seq::new(es@.len(), |k: int| (es@[k].0@, val_model(*es@[k].1))),
                    val_model(*v) == JsonV::Obj(ms),
                    out.wf(),
                    out@ == presence_of(ms.take(i as int)),
                decreases n - i,
            {
                let udp = meta_udp(es[i].1);
                let key = es[i].0.clone();
                out.upsert(key, udp);
                proof {
                    assert(ms.take(i + 1).drop_last() =~= ms.take(i as int));
                    assert(ms.take(i + 1).last() == ms[i as int]);
                }
                i += 1;
            }
            proof {
                assert(ms.take(n as int) =~= ms);
            }
            out
        },
    }
}

} // verus!
