//! A plain tree for parsed JSON, its ghost view, and the trusted bridge
//! that fills it: the text-to-value parsing itself is done by an outside
//! parser, whose result is named so that everything after it is verified
//! against the named tree.

use vstd::prelude::*;
use crate::strutil::str_eq;

verus! {

broadcast use vstd::std_specs::vec::axiom_vec_index_decreases;

/// One field of a JSON object.
#[derive(Debug)]
pub struct JsonEntry {
    pub key: String,
    pub value: JsonValue,
}

/// A parsed JSON value, held as plain data. A number keeps only its
/// decimal rendering: no field the loader reads is numeric.
#[derive(Debug)]
pub enum JsonValue {
    Null,
    Bool(bool),
    Num(String),
    Str(String),
    List(Vec<JsonValue>),
    Obj(Vec<JsonEntry>),
}

/// The mathematical shape of a JSON value: what a `JsonValue` holds, with
/// every string as its character sequence.
pub ghost enum JsonView {
    Null,
    Bool(bool),
    Num(Seq<char>),
    Str(Seq<char>),
    List(Seq<JsonView>),
    Obj(Seq<(Seq<char>, JsonView)>),
}

/// The views of a list's elements, in order.
pub open spec fn views_of_list(items: Vec<JsonValue>) -> Seq<JsonView>
    decreases items,
{
    Seq::new(
        items@.len(),
        |i: int|
            if 0 <= i < items@.len() {
                items[i].jview()
            } else {
                JsonView::Null
            },
    )
}

/// The key and value view of an object's entries, in order.
pub open spec fn views_of_entries(entries: Vec<JsonEntry>) -> Seq<(Seq<char>, JsonView)>
    decreases entries,
{
    Seq::new(
        entries@.len(),
        |i: int|
            if 0 <= i < entries@.len() {
                (entries[i].key@, entries[i].value.jview())
            } else {
                (Seq::<char>::empty(), JsonView::Null)
            },
    )
}

impl JsonValue {
    /// The ghost view of this value.
    pub open spec fn jview(self) -> JsonView
        decreases self,
    {
        match self {
            JsonValue::Null => JsonView::Null,
            JsonValue::Bool(b) => JsonView::Bool(b),
            JsonValue::Num(s) => JsonView::Num(s@),
            JsonValue::Str(s) => JsonView::Str(s@),
            JsonValue::List(items) => JsonView::List(views_of_list(items)),
            JsonValue::Obj(entries) => JsonView::Obj(views_of_entries(entries)),
        }
    }
}

/// A value's view has the variant of the value.
pub proof fn lemma_jview_shape(v: JsonValue)
    ensures
        v.jview() is Null <==> v is Null,
        v.jview() is Bool <==> v is Bool,
        v.jview() is Num <==> v is Num,
        v.jview() is Str <==> v is Str,
        v.jview() is List <==> v is List,
        v.jview() is Obj <==> v is Obj,
{
    match v {
        JsonValue::Null => {},
        JsonValue::Bool(_) => {},
        JsonValue::Num(_) => {},
        JsonValue::Str(_) => {},
        JsonValue::List(_) => {},
        JsonValue::Obj(_) => {},
    }
}

/// What the outside parser makes of raw JSON text: the parsed tree, or
/// the parse failure's message. A function of the text alone.
pub uninterp spec fn json_parse_of(text: Seq<char>) -> Result<JsonView, Seq<char>>;

#[verifier::external_type_specification]
#[verifier::external_body]
pub struct ExSerdeValue(serde_json::Value);

/// Relies on the variants of `serde_json::Value`: each is carried over
/// one for one, a number as its decimal rendering, an object's entries in
/// the order the parser kept them. The conversion half of
/// `parse_json_tree`, which alone calls it.
#[verifier::external_body]
fn json_tree(v: &serde_json::Value) -> JsonValue {
    match v {
        serde_json::Value::Null => JsonValue::Null,
        serde_json::Value::Bool(b) => JsonValue::Bool(*b),
        serde_json::Value::Number(n) => JsonValue::Num(n.to_string()),
        serde_json::Value::String(s) => JsonValue::Str(s.clone()),
        serde_json::Value::Array(a) => JsonValue::List(a.iter().map(json_tree).collect()),
        serde_json::Value::Object(o) => JsonValue::Obj(
            o.iter().map(|(k, v)| JsonEntry { key: k.clone(), value: json_tree(v) }).collect(),
        ),
    }
}

/// Relies on `serde_json::from_str::<serde_json::Value>` and on the
/// `Display` of `serde_json::Error`: parses JSON text, deterministically
/// in the text alone (the parser keeps object entries in an ordered map),
/// and hands back the tree, or the failure's message.
#[verifier::external_body]
pub(crate) fn parse_json_tree(text: &str) -> (r: Result<JsonValue, String>)
    ensures
        match r {
            Ok(v) => json_parse_of(text@) == Ok::<JsonView, Seq<char>>(v.jview()),
            Err(m) => json_parse_of(text@) == Err::<JsonView, Seq<char>>(m@),
        },
{
    match serde_json::from_str::<serde_json::Value>(text) {
        Ok(v) => Ok(json_tree(&v)),
        Err(e) => Err(e.to_string()),
    }
}

/// First value under `key` among the entry views, scanning from `i`.
pub open spec fn spec_obj_get_from(
    pairs: Seq<(Seq<char>, JsonView)>,
    key: Seq<char>,
    i: int,
) -> Option<JsonView>
    decreases pairs.len() - i,
{
    if !(0 <= i < pairs.len()) {
        None
    } else if pairs[i].0 == key {
        Some(pairs[i].1)
    } else {
        spec_obj_get_from(pairs, key, i + 1)
    }
}

/// First value under `key` among the entry views of an object.
pub open spec fn spec_obj_get(pairs: Seq<(Seq<char>, JsonView)>, key: Seq<char>) -> Option<
    JsonView,
> {
    spec_obj_get_from(pairs, key, 0)
}

/// Looks a key up in an object's entries: the first match wins.
pub fn obj_get<'a>(entries: &'a Vec<JsonEntry>, key: &str) -> (r: Option<&'a JsonValue>)
    ensures
        match r {
            Some(v) => spec_obj_get(views_of_entries(*entries), key@) == Some(v.jview()),
            None => spec_obj_get(views_of_entries(*entries), key@) is None,
        },
{
    let ghost pairs = views_of_entries(*entries);
    let mut i: usize = 0;
    while i < entries.len()
        invariant
            pairs == views_of_entries(*entries),
            pairs.len() == entries.len(),
            i <= entries.len(),
            spec_obj_get(pairs, key@) == spec_obj_get_from(pairs, key@, i as int),
        decreases entries.len() - i,
    {
        if str_eq(entries[i].key.as_str(), key) {
            proof {
                assert(pairs[i as int].0 == key@);
                assert(pairs[i as int].1 == entries[i as int].value.jview());
            }
            return Some(&entries[i].value);
        }
        proof {
            assert(pairs[i as int].0 != key@);
        }
        i = i + 1;
    }
    None
}

} // verus!
