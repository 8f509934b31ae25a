//! Raw export-table schemas of the second game: one module per table.
//! Text references live in nested `{ "Hash": n }` objects here, and
//! rarity comes as a named tier token per table.

use vstd::prelude::*;

use crate::json::{obj_get, obj_int, spec_obj_get, spec_obj_int, JsonValue};

pub mod characters;
pub mod items;
pub mod light_cones;
pub mod mission;
pub mod monster;
pub mod relics;

verus! {

/// The hash inside a nested `{ "Hash": n }` field, if the field has
/// that shape.
pub open spec fn spec_obj_hash(fields: Seq<(String, JsonValue)>, key: Seq<char>) -> Option<i64> {
    match spec_obj_get(fields, key) {
        Some(JsonValue::Obj(inner)) => spec_obj_int(inner@, "Hash"@),
        _ => None,
    }
}

/// Reads the hash of a nested `{ "Hash": n }` field.
pub fn obj_hash(fields: &Vec<(String, JsonValue)>, key: &str) -> (r: Option<i64>)
    ensures
        r == spec_obj_hash(fields@, key@),
{
    match obj_get(fields, key) {
        Some(JsonValue::Obj(inner)) => obj_int(inner, "Hash"),
        _ => None,
    }
}

} // verus!
