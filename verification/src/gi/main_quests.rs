//! The raw main-quest table row.

use vstd::prelude::*;

use crate::json::{obj_int, spec_obj_int, FromJson, JsonValue};

verus! {

/// One main-quest row: id, title hash and description hash.
pub struct MainQuest {
    pub id: i64,
    pub title_text_map_hash: i64,
    pub desc_text_map_hash: i64,
}

impl FromJson for MainQuest {
    open spec fn json_parses(v: JsonValue) -> bool {
        &&& v is Obj
        &&& spec_obj_int(v->Obj_0@, "id"@) is Some
        &&& spec_obj_int(v->Obj_0@, "titleTextMapHash"@) is Some
        &&& spec_obj_int(v->Obj_0@, "descTextMapHash"@) is Some
    }

    open spec fn json_extracts(&self, v: JsonValue) -> bool {
        &&& Some(self.id) == spec_obj_int(v->Obj_0@, "id"@)
        &&& Some(self.title_text_map_hash) == spec_obj_int(v->Obj_0@, "titleTextMapHash"@)
        &&& Some(self.desc_text_map_hash) == spec_obj_int(v->Obj_0@, "descTextMapHash"@)
    }

    fn from_json(v: &JsonValue) -> (r: Option<Self>) {
        let fields = match v {
            JsonValue::Obj(fields) => fields,
            _ => {
                return None;
            },
        };
        let id = match obj_int(fields, "id") {
            Some(x) => x,
            None => {
                return None;
            },
        };
        let title = match obj_int(fields, "titleTextMapHash") {
            Some(x) => x,
            None => {
                return None;
            },
        };
        let desc = match obj_int(fields, "descTextMapHash") {
            Some(x) => x,
            None => {
                return None;
            },
        };
        Some(MainQuest { id, title_text_map_hash: title, desc_text_map_hash: desc })
    }
}

} // verus!
