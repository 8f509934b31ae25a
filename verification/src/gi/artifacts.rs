//! The raw artifact table row.

use vstd::prelude::*;

use crate::json::{obj_int, obj_str, spec_obj_int, spec_obj_str, FromJson, JsonValue};

verus! {

/// One artifact row: rank level, id, name and description hashes, and
/// the icon name.
pub struct Artifact {
    pub rank_level: i64,
    pub id: i64,
    pub name_text_map_hash: i64,
    pub desc_text_map_hash: i64,
    pub icon: String,
}

impl FromJson for Artifact {
    open spec fn json_parses(v: JsonValue) -> bool {
        &&& v is Obj
        &&& spec_obj_int(v->Obj_0@, "rankLevel"@) is Some
        &&& spec_obj_int(v->Obj_0@, "id"@) is Some
        &&& spec_obj_int(v->Obj_0@, "nameTextMapHash"@) is Some
        &&& spec_obj_int(v->Obj_0@, "descTextMapHash"@) is Some
        &&& spec_obj_str(v->Obj_0@, "icon"@) is Some
    }

    open spec fn json_extracts(&self, v: JsonValue) -> bool {
        &&& Some(self.rank_level) == spec_obj_int(v->Obj_0@, "rankLevel"@)
        &&& Some(self.id) == spec_obj_int(v->Obj_0@, "id"@)
        &&& Some(self.name_text_map_hash) == spec_obj_int(v->Obj_0@, "nameTextMapHash"@)
        &&& Some(self.desc_text_map_hash) == spec_obj_int(v->Obj_0@, "descTextMapHash"@)
        &&& Some(self.icon@) == spec_obj_str(v->Obj_0@, "icon"@)
    }

    fn from_json(v: &JsonValue) -> (r: Option<Self>) {
        let fields = match v {
            JsonValue::Obj(fields) => fields,
            _ => {
                return None;
            },
        };
        let rank_level = match obj_int(fields, "rankLevel") {
            Some(x) => x,
            None => {
                return None;
            },
        };
        let id = match obj_int(fields, "id") {
            Some(x) => x,
            None => {
                return None;
            },
        };
        let name = match obj_int(fields, "nameTextMapHash") {
            Some(x) => x,
            None => {
                return None;
            },
        };
        let desc = match obj_int(fields, "descTextMapHash") {
            Some(x) => x,
            None => {
                return None;
            },
        };
        let icon = match obj_str(fields, "icon") {
            Some(x) => x,
            None => {
                return None;
            },
        };
        Some(
            Artifact {
                rank_level,
                id,
                name_text_map_hash: name,
                desc_text_map_hash: desc,
                icon,
            },
        )
    }
}

} // verus!
