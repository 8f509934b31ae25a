//! The raw achievement table row.

use vstd::prelude::*;

use crate::json::{obj_int, spec_obj_int, FromJson, JsonValue};

verus! {

/// One achievement row: title and description hashes, and the id.
pub struct Achievement {
    pub title_text_map_hash: i64,
    pub desc_text_map_hash: i64,
    pub id: i64,
}

impl FromJson for Achievement {
    open spec fn json_parses(v: JsonValue) -> bool {
        &&& v is Obj
        &&& spec_obj_int(v->Obj_0@, "titleTextMapHash"@) is Some
        &&& spec_obj_int(v->Obj_0@, "descTextMapHash"@) is Some
        &&& spec_obj_int(v->Obj_0@, "id"@) is Some
    }

    open spec fn json_extracts(&self, v: JsonValue) -> bool {
        &&& Some(self.title_text_map_hash) == spec_obj_int(v->Obj_0@, "titleTextMapHash"@)
        &&& Some(self.desc_text_map_hash) == spec_obj_int(v->Obj_0@, "descTextMapHash"@)
        &&& Some(self.id) == spec_obj_int(v->Obj_0@, "id"@)
    }

    fn from_json(v: &JsonValue) -> (r: Option<Self>) {
        let fields = match v {
            JsonValue::Obj(fields) => fields,
            _ => {
                return None;
            },
        };
        let title = match obj_int(fields, "titleTextMapHash") {
            Some(x) => x,
            None => {
                return None;
            },
        };
        let desc = match obj_int(fields, "descTextMapHash") {
            Some(x) => x,
            None => {
                return None;
            },
        };
        let id = match obj_int(fields, "id") {
            Some(x) => x,
            None => {
                return None;
            },
        };
        Some(Achievement { title_text_map_hash: title, desc_text_map_hash: desc, id })
    }
}

} // verus!
