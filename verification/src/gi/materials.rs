//! The raw material table row.

use vstd::prelude::*;

use crate::json::{obj_get, obj_int, obj_str, spec_obj_get, spec_obj_int, spec_obj_str, FromJson,
    JsonValue};

verus! {

/// The optional integer a field denotes: absent or null is `None`, an
/// integer is its value; anything else is not accepted.
pub open spec fn spec_opt_int_ok(fields: Seq<(String, JsonValue)>, key: Seq<char>) -> bool {
    match spec_obj_get(fields, key) {
        None => true,
        Some(JsonValue::Null) => true,
        Some(JsonValue::Int(_)) => true,
        Some(_) => false,
    }
}

/// The value of an optional integer field.
pub open spec fn spec_opt_int(fields: Seq<(String, JsonValue)>, key: Seq<char>) -> Option<i64> {
    match spec_obj_get(fields, key) {
        Some(JsonValue::Int(i)) => Some(i),
        _ => None,
    }
}

/// Reads an optional integer field: absent or null is `None`, any
/// value of another type rejects the row.
pub fn opt_int(fields: &Vec<(String, JsonValue)>, key: &str) -> (r: Result<Option<i64>, ()>)
    ensures
        match r {
            Ok(x) => spec_opt_int_ok(fields@, key@) && x == spec_opt_int(fields@, key@),
            Err(_) => !spec_opt_int_ok(fields@, key@),
        },
{
    match obj_get(fields, key) {
        None => Ok(None),
        Some(JsonValue::Null) => Ok(None),
        Some(JsonValue::Int(i)) => Ok(Some(*i)),
        Some(_) => Err(()),
    }
}

/// One material row: optional rank level, id, name and description
/// hashes, and the icon name.
pub struct Material {
    pub rank_level: Option<i64>,
    pub id: i64,
    pub name_text_map_hash: i64,
    pub desc_text_map_hash: i64,
    pub icon: String,
}

impl FromJson for Material {
    open spec fn json_parses(v: JsonValue) -> bool {
        &&& v is Obj
        &&& spec_opt_int_ok(v->Obj_0@, "rankLevel"@)
        &&& spec_obj_int(v->Obj_0@, "id"@) is Some
        &&& spec_obj_int(v->Obj_0@, "nameTextMapHash"@) is Some
        &&& spec_obj_int(v->Obj_0@, "descTextMapHash"@) is Some
        &&& spec_obj_str(v->Obj_0@, "icon"@) is Some
    }

    open spec fn json_extracts(&self, v: JsonValue) -> bool {
        &&& self.rank_level == spec_opt_int(v->Obj_0@, "rankLevel"@)
        &&& Some(self.id) == spec_obj_int(v->Obj_0@, "id"@)
        &&& Some(self.name_text_map_hash) == spec_obj_int(v->Obj_0@, "nameTextMapHash"@)
        &&& Some(self.desc_text_map_hash) == spec_obj_int(v->Obj_0@, "descTextMapHash"@)
        &&& Some(self.icon@) == spec_obj_str(v->Obj_0@, "icon"@)
    }

    fn from_json(v: &JsonValue) -> (r: Option<Self>) {
        let fields = match v {
            JsonValue::Obj(fields) => fields,
            _ => {
                return None;
            },
        };
        let rank_level = match opt_int(fields, "rankLevel") {
            Ok(x) => x,
            Err(_) => {
                return None;
            },
        };
        let id = match obj_int(fields, "id") {
            Some(x) => x,
            None => {
                return None;
            },
        };
        let name = match obj_int(fields, "nameTextMapHash") {
            Some(x) => x,
            None => {
                return None;
            },
        };
        let desc = match obj_int(fields, "descTextMapHash") {
            Some(x) => x,
            None => {
                return None;
            },
        };
        let icon = match obj_str(fields, "icon") {
            Some(x) => x,
            None => {
                return None;
            },
        };
        Some(
            Material {
                rank_level,
                id,
                name_text_map_hash: name,
                desc_text_map_hash: desc,
                icon,
            },
        )
    }
}

} // verus!
