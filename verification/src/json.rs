//! A plain tree of parsed JSON, and the trusted bridge that fills it
//! from `serde_json`.  All schema logic in the library works on this
//! tree with full contracts; nothing is assumed about what a given text
//! parses to, so every function that reads the tree handles every shape.

use vstd::prelude::*;

use crate::text::str_eq;

verus! {

/// A parsed JSON document as plain data.  Numbers that fit `i64` carry
/// their value; any other number (too large, or not an integer) is kept
/// only as `OtherNum`, since no table schema here reads such a field.
pub enum JsonValue {
    Null,
    Bool(bool),
    Int(i64),
    OtherNum,
    Str(String),
    Arr(Vec<JsonValue>),
    Obj(Vec<(String, JsonValue)>),
}

/// The declared shape of `serde_json::Value`, so that the bridge below
/// can take one.
#[verifier::external_type_specification]
#[verifier::external_body]
pub struct ExSerdeValue(serde_json::Value);

/// Relies on the variants of `serde_json::Value`: each arm moves one
/// parsed variant into the library's own tree, and `Number::as_i64`
/// reads an integer that fits `i64`.
#[verifier::external_body]
fn value_to_tree(v: &serde_json::Value) -> JsonValue {
    match v {
        serde_json::Value::Null => JsonValue::Null,
        serde_json::Value::Bool(b) => JsonValue::Bool(*b),
        serde_json::Value::Number(n) => match n.as_i64() {
            Some(i) => JsonValue::Int(i),
            None => JsonValue::OtherNum,
        },
        serde_json::Value::String(s) => JsonValue::Str(s.clone()),
        serde_json::Value::Array(a) => JsonValue::Arr(a.iter().map(value_to_tree).collect()),
        serde_json::Value::Object(m) => JsonValue::Obj(
            m.iter().map(|(k, x)| (k.clone(), value_to_tree(x))).collect(),
        ),
    }
}

/// The document that a text parses to, if it is valid JSON: what
/// `serde_json::from_str` accepts and returns, carried over into the
/// library's tree.  Parsing is a function of the text alone.
pub uninterp spec fn json_doc_of(s: Seq<char>) -> Option<JsonValue>;

/// Relies on `serde_json::from_str::<serde_json::Value>`: valid JSON
/// parses to its document, a function of the text alone; anything
/// else gives an error, whose message comes back as a string.
#[verifier::external_body]
pub(crate) fn parse_json(s: &str) -> (r: Result<JsonValue, String>)
    ensures
        (r matches Ok(v) ==> json_doc_of(s@) == Some(v)),
        (r is Err <==> json_doc_of(s@) is None),
{
    match serde_json::from_str::<serde_json::Value>(s) {
        Ok(v) => Ok(value_to_tree(&v)),
        Err(e) => Err(e.to_string()),
    }
}

/// A record type that one element of a raw export table parses into.
/// `json_parses` says which documents are accepted; `json_extracts`
/// relates an accepted document to the record read from it.
pub trait FromJson: Sized {
    spec fn json_parses(v: JsonValue) -> bool;

    spec fn json_extracts(&self, v: JsonValue) -> bool;

    fn from_json(v: &JsonValue) -> (r: Option<Self>)
        ensures
            match r {
                Some(x) => Self::json_parses(*v) && x.json_extracts(*v),
                None => !Self::json_parses(*v),
            },
    ;
}

/// Whether a document is an array whose every element parses as `T`.
/// A failure anywhere rejects the whole table; there is no partial
/// read.
pub open spec fn spec_table_parses<T: FromJson>(v: JsonValue) -> bool {
    &&& v is Arr
    &&& forall|i: int| 0 <= i < v->Arr_0@.len() ==> T::json_parses(#[trigger] v->Arr_0@[i])
}

/// Whether a record list is exactly what a table document denotes.
pub open spec fn spec_table_extracts<T: FromJson>(r: Seq<T>, v: JsonValue) -> bool {
    &&& r.len() == v->Arr_0@.len()
    &&& forall|i: int| 0 <= i < r.len() ==> (#[trigger] r[i]).json_extracts(v->Arr_0@[i])
}

/// Reads a whole raw table from a parsed document: every element must
/// parse, or the table is rejected.
pub fn read_table<T: FromJson>(v: &JsonValue) -> (r: Option<Vec<T>>)
    ensures
        match r {
            Some(rs) => spec_table_parses::<T>(*v) && spec_table_extracts(rs@, *v),
            None => !spec_table_parses::<T>(*v),
        },
{
    let items = match v {
        JsonValue::Arr(items) => items,
        _ => {
            return None;
        },
    };
    let n = items.len();
    let mut out: Vec<T> = Vec::new();
    let mut i: usize = 0;
    while i < n
        invariant
            i <= n,
            n == items@.len(),
            v is Arr && v->Arr_0@ == items@,
            out@.len() == i,
            forall|j: int| 0 <= j < i ==> T::json_parses(#[trigger] items@[j]),
            forall|j: int| 0 <= j < i ==> (#[trigger] out@[j]).json_extracts(items@[j]),
        decreases n - i,
    {
        match T::from_json(&items[i]) {
            Some(x) => {
                out.push(x);
            },
            None => {
                return None;
            },
        }
        i += 1;
    }
    Some(out)
}

/// The first value under a key in an object's field list, if any.
pub open spec fn spec_obj_get(fields: Seq<(String, JsonValue)>, key: Seq<char>) -> Option<
    JsonValue,
>
    decreases fields.len(),
{
    if fields.len() == 0 {
        None
    } else if fields[0].0@ == key {
        Some(fields[0].1)
    } else {
        spec_obj_get(fields.skip(1), key)
    }
}

/// Looks a key up in an object's field list.
pub fn obj_get<'a>(fields: &'a Vec<(String, JsonValue)>, key: &str) -> (r: Option<
    &'a JsonValue,
>)
    ensures
        match r {
            Some(v) => spec_obj_get(fields@, key@) == Some(*v),
            None => spec_obj_get(fields@, key@) is None,
        },
{
    let n = fields.len();
    proof {
        assert(fields@.skip(0) =~= fields@);
    }
    let mut i: usize = 0;
    while i < n
        invariant
            i <= n,
            n == fields@.len(),
            spec_obj_get(fields@, key@) == spec_obj_get(fields@.skip(i as int), key@),
        decreases n - i,
    {
        proof {
            assert(fields@.skip(i as int)[0] == fields@[i as int]);
            assert(fields@.skip(i as int).skip(1) =~= fields@.skip(i + 1));
        }
        if str_eq(fields[i].0.as_str(), key) {
            return Some(&fields[i].1);
        }
        i += 1;
    }
    proof {
        assert(fields@.skip(i as int) =~= Seq::<(String, JsonValue)>::empty());
    }
    None
}

/// The integer under a key of an object, if the value is one.
pub open spec fn spec_obj_int(fields: Seq<(String, JsonValue)>, key: Seq<char>) -> Option<i64> {
    match spec_obj_get(fields, key) {
        Some(JsonValue::Int(i)) => Some(i),
        _ => None,
    }
}

/// The string under a key of an object, if the value is one.
pub open spec fn spec_obj_str(fields: Seq<(String, JsonValue)>, key: Seq<char>) -> Option<
    Seq<char>,
> {
    match spec_obj_get(fields, key) {
        Some(JsonValue::Str(s)) => Some(s@),
        _ => None,
    }
}

/// Reads an integer field of an object.
pub fn obj_int(fields: &Vec<(String, JsonValue)>, key: &str) -> (r: Option<i64>)
    ensures
        r == spec_obj_int(fields@, key@),
{
    match obj_get(fields, key) {
        Some(JsonValue::Int(i)) => Some(*i),
        _ => None,
    }
}

/// Reads a string field of an object, copied out.
pub fn obj_str(fields: &Vec<(String, JsonValue)>, key: &str) -> (r: Option<String>)
    ensures
        match r {
            Some(s) => spec_obj_str(fields@, key@) == Some(s@),
            None => spec_obj_str(fields@, key@) is None,
        },
{
    match obj_get(fields, key) {
        Some(JsonValue::Str(s)) => Some(s.clone()),
        _ => None,
    }
}

} // verus!
