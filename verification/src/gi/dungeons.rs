//! The raw dungeon table row.

use vstd::prelude::*;

use crate::json::{obj_int, spec_obj_int, FromJson, JsonValue};

verus! {

/// One dungeon row: id, name hash and description hash.
pub struct Dungeon {
    pub id: i64,
    pub name_text_map_hash: i64,
    pub desc_text_map_hash: i64,
}

impl FromJson for Dungeon {
    open spec fn json_parses(v: JsonValue) -> bool {
        &&& v is Obj
        &&& spec_obj_int(v->Obj_0@, "id"@) is Some
        &&& spec_obj_int(v->Obj_0@, "nameTextMapHash"@) is Some
        &&& spec_obj_int(v->Obj_0@, "descTextMapHash"@) is Some
    }

    open spec fn json_extracts(&self, v: JsonValue) -> bool {
        &&& Some(self.id) == spec_obj_int(v->Obj_0@, "id"@)
        &&& Some(self.name_text_map_hash) == spec_obj_int(v->Obj_0@, "nameTextMapHash"@)
        &&& Some(self.desc_text_map_hash) == spec_obj_int(v->Obj_0@, "descTextMapHash"@)
    }

    fn from_json(v: &JsonValue) -> (r: Option<Self>) {
        let fields = match v {
            JsonValue::Obj(fields) => fields,
            _ => {
                return None;
            },
        };
        let id = match obj_int(fields, "id") {
            Some(x) => x,
            None => {
                return None;
            },
        };
        let name = match obj_int(fields, "nameTextMapHash") {
            Some(x) => x,
            None => {
                return None;
            },
        };
        let desc = match obj_int(fields, "descTextMapHash") {
            Some(x) => x,
            None => {
                return None;
            },
        };
        Some(Dungeon { id, name_text_map_hash: name, desc_text_map_hash: desc })
    }
}

} // verus!
