//! A mathematical model of JSON values, and trusted bridges to `serde_json`.
//!
//! The coordinator speaks JSON on two wires (UDP registration and the
//! signaling channel). `serde_json::Value` is opaque to the verifier, so the
//! library gives every value a model of type [`JsonV`] through the
//! uninterpreted function [`val_model`], and reads or builds values only
//! through small trusted wrappers whose contracts are stated over that model.
//! All decoding and encoding logic above these wrappers is verified.

use vstd::prelude::*;

verus! {

/// The model of a JSON value. A number is kept as its decimal rendering so
/// that the model stays in plain values; the client never reads numbers.
pub enum JsonV {
    Null,
    Bool(bool),
    Num(Seq<char>),
    Str(Seq<char>),
    Arr(Seq<JsonV>),
    Obj(Seq<(Seq<char>, JsonV)>),
}

/// Looks a key up among the entries of an object model: the first entry with
/// that key. Entries that come from `serde_json` have unique keys.
pub open spec fn obj_lookup(es: Seq<(Seq<char>, JsonV)>, key: Seq<char>) -> Option<JsonV>
    decreases es.len(),
{
    if es.len() == 0 {
        None
    } else if es[0].0 == key {
        Some(es[0].1)
    } else {
        obj_lookup(es.drop_first(), key)
    }
}

/// The field of an object model under a key; of anything but an object,
/// nothing.
pub open spec fn obj_field(j: JsonV, key: Seq<char>) -> Option<JsonV> {
    match j {
        JsonV::Obj(es) => obj_lookup(es, key),
        _ => None,
    }
}

/// The string field of an object model under a key; of a missing or
/// non-string field, nothing.
pub open spec fn obj_str_field(j: JsonV, key: Seq<char>) -> Option<Seq<char>> {
    match obj_field(j, key) {
        Some(JsonV::Str(s)) => Some(s),
        _ => None,
    }
}

/// Strict lexicographic order on strings, by code point. UTF-8 encoding
/// preserves code-point order, so this is also the byte order that
/// `serde_json`'s map uses for its `String` keys.
pub open spec fn str_lt(a: Seq<char>, b: Seq<char>) -> bool
    decreases a.len(),
{
    if b.len() == 0 {
        false
    } else if a.len() == 0 {
        true
    } else if (a[0] as u32) < (b[0] as u32) {
        true
    } else if a[0] == b[0] {
        str_lt(a.drop_first(), b.drop_first())
    } else {
        false
    }
}

#[verifier::external_type_specification]
#[verifier::external_body]
pub struct ExValue(serde_json::Value);

/// The model of a `serde_json::Value`: `Null`, booleans, strings, arrays and
/// objects map to the like-named `JsonV` variants (object entries in the
/// order the value's map iterates, which is sorted by key), and a number maps
/// to `Num` of its rendering.
pub uninterp spec fn val_model(v: serde_json::Value) -> JsonV;

/// What `serde_json::from_str::<Value>` makes of a text: the model of the
/// parsed value, or `None` where the text is not accepted as JSON.
pub uninterp spec fn json_of(s: Seq<char>) -> Option<JsonV>;

/// The one text that `serde_json`'s compact serializer writes for a value
/// with the given model.
pub uninterp spec fn json_text_of(v: JsonV) -> Seq<char>;

/// Relies on `serde_json::from_str::<Value>`: parsing is a function of the
/// text alone, here named `json_of`.
#[verifier::external_body]
pub(crate) fn parse_value(s: &str) -> (r: Option<serde_json::Value>)
    ensures
        r matches Some(v) ==> json_of(s@) == Some(val_model(v)),
        r is None ==> json_of(s@) is None,
{
    serde_json::from_str::<serde_json::Value>(s).ok()
}

/// Relies on `Clone for serde_json::Value`: the clone is the same value.
#[verifier::external_body]
pub(crate) fn value_clone(v: &serde_json::Value) -> (r: serde_json::Value)
    ensures
        val_model(r) == val_model(*v),
{
    v.clone()
}

/// Relies on `serde_json::Value::as_str`: `Some` exactly on strings.
#[verifier::external_body]
pub(crate) fn val_as_str(v: &serde_json::Value) -> (r: Option<&str>)
    ensures
        r matches Some(s) ==> val_model(*v) == JsonV::Str(s@),
        r is None ==> !(val_model(*v) matches JsonV::Str(_)),
{
    v.as_str()
}

/// Relies on `serde_json::Value::as_array`: `Some` of the elements exactly
/// on arrays.
#[verifier::external_body]
pub(crate) fn val_as_array(v: &serde_json::Value) -> (r: Option<&Vec<serde_json::Value>>)
    ensures
        r matches Some(a) ==> val_model(*v) == JsonV::Arr(
            Seq::new(a@.len(), |i: int| val_model(a@[i])),
        ),
        r is None ==> !(val_model(*v) matches JsonV::Arr(_)),
{
    v.as_array()
}

/// Relies on `serde_json::Value::get` with a string index: on an object it
/// looks the key up in the map, on anything else it returns `None`.
#[verifier::external_body]
pub(crate) fn val_get<'a>(v: &'a serde_json::Value, key: &str) -> (r: Option<&'a serde_json::Value>)
    ensures
        r matches Some(x) ==> (val_model(*v) matches JsonV::Obj(es) && obj_lookup(es, key@)
            == Some(val_model(*x))),
        r is None ==> !(val_model(*v) matches JsonV::Obj(es) && obj_lookup(es, key@) is Some),
{
    v.get(key)
}

/// Relies on `serde_json::Value::as_object` and the map's iteration: the
/// entries of an object, in map order, which is the order of the model.
#[verifier::external_body]
pub(crate) fn val_object_entries<'a>(v: &'a serde_json::Value) -> (r: Option<
    Vec<(String, &'a serde_json::Value)>,
>)
    ensures
        r matches Some(es) ==> val_model(*v) == JsonV::Obj(
            Seq::new(es@.len(), |i: int| (es@[i].0@, val_model(*es@[i].1))),
        ),
        r is None ==> !(val_model(*v) matches JsonV::Obj(_)),
{
    let map = v.as_object()?;
    let mut out: Vec<(String, &serde_json::Value)> = Vec::new();
    for (k, x) in map.iter() {
        out.push((k.clone(), x));
    }
    Some(out)
}

/// Extracts the string field of an object value under a key, exactly as
/// `obj_str_field` states.
pub(crate) fn str_field(v: &serde_json::Value, key: &str) -> (r: Option<String>)
    ensures
        r matches Some(s) ==> obj_str_field(val_model(*v), key@) == Some(s@),
        r is None ==> obj_str_field(val_model(*v), key@) is None,
{
    match val_get(v, key) {
        None => None,
        Some(x) => match val_as_str(x) {
            None => None,
            Some(s) => Some(s.to_owned()),
        },
    }
}

/// Relies on `serde_json::Value::String`: builds a string value.
#[verifier::external_body]
pub(crate) fn val_str(s: &str) -> (r: serde_json::Value)
    ensures
        val_model(r) == JsonV::Str(s@),
{
    serde_json::Value::String(s.to_string())
}

/// Relies on `serde_json::Value::Array`: builds an array value of the given
/// elements, in order.
#[verifier::external_body]
pub(crate) fn val_arr(elems: Vec<serde_json::Value>) -> (r: serde_json::Value)
    ensures
        val_model(r) == JsonV::Arr(Seq::new(elems@.len(), |i: int| val_model(elems@[i]))),
{
    serde_json::Value::Array(elems)
}

/// Relies on `serde_json::Value::Object` and `serde_json::Map::insert`. The
/// keys must come strictly sorted: the map then holds and iterates exactly
/// the given entries, so the model is the given sequence.
#[verifier::external_body]
pub(crate) fn val_obj(entries: Vec<(String, serde_json::Value)>) -> (r: serde_json::Value)
    requires
        forall|i: int, j: int|
            0 <= i < j < entries@.len() ==> str_lt(entries@[i].0@, entries@[j].0@),
    ensures
        val_model(r) == JsonV::Obj(
            Seq::new(entries@.len(), |i: int| (entries@[i].0@, val_model(entries@[i].1))),
        ),
{
    let mut m = serde_json::Map::new();
    for (k, x) in entries {
        m.insert(k, x);
    }
    serde_json::Value::Object(m)
}

/// Relies on `serde_json`'s compact serializer (`Display for Value`): the
/// text written for a value is a function of the value alone, here named
/// `json_text_of`.
#[verifier::external_body]
pub(crate) fn val_to_text(v: &serde_json::Value) -> (r: String)
    ensures
        r@ == json_text_of(val_model(*v)),
{
    v.to_string()
}

} // verus!
