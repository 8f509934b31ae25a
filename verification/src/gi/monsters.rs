//! The raw monster table row and its cross-referenced description row.

use vstd::prelude::*;

use crate::gi::materials::{opt_int, spec_opt_int, spec_opt_int_ok};
use crate::json::{obj_int, obj_str, spec_obj_int, spec_obj_str, FromJson, JsonValue};

verus! {

/// One monster row: an optional foreign key into the description
/// table, and the id.
pub struct Monster {
    pub describe_id: Option<i64>,
    pub id: i64,
}

impl FromJson for Monster {
    open spec fn json_parses(v: JsonValue) -> bool {
        &&& v is Obj
        &&& spec_opt_int_ok(v->Obj_0@, "describeId"@)
        &&& spec_obj_int(v->Obj_0@, "id"@) is Some
    }

    open spec fn json_extracts(&self, v: JsonValue) -> bool {
        &&& self.describe_id == spec_opt_int(v->Obj_0@, "describeId"@)
        &&& Some(self.id) == spec_obj_int(v->Obj_0@, "id"@)
    }

    fn from_json(v: &JsonValue) -> (r: Option<Self>) {
        let fields = match v {
            JsonValue::Obj(fields) => fields,
            _ => {
                return None;
            },
        };
        let describe_id = match opt_int(fields, "describeId") {
            Ok(x) => x,
            Err(_) => {
                return None;
            },
        };
        let id = match obj_int(fields, "id") {
            Some(x) => x,
            None => {
                return None;
            },
        };
        Some(Monster { describe_id, id })
    }
}

/// One monster-description row: id, name hash and icon name.
pub struct MonsterDescribeElement {
    pub id: i64,
    pub name_text_map_hash: i64,
    pub icon: String,
}

impl FromJson for MonsterDescribeElement {
    open spec fn json_parses(v: JsonValue) -> bool {
        &&& v is Obj
        &&& spec_obj_int(v->Obj_0@, "id"@) is Some
        &&& spec_obj_int(v->Obj_0@, "nameTextMapHash"@) is Some
        &&& spec_obj_str(v->Obj_0@, "icon"@) is Some
    }

    open spec fn json_extracts(&self, v: JsonValue) -> bool {
        &&& Some(self.id) == spec_obj_int(v->Obj_0@, "id"@)
        &&& Some(self.name_text_map_hash) == spec_obj_int(v->Obj_0@, "nameTextMapHash"@)
        &&& Some(self.icon@) == spec_obj_str(v->Obj_0@, "icon"@)
    }

    fn from_json(v: &JsonValue) -> (r: Option<Self>) {
        let fields = match v {
            JsonValue::Obj(fields) => fields,
            _ => {
                return None;
            },
        };
        let id = match obj_int(fields, "id") {
            Some(x) => x,
            None => {
                return None;
            },
        };
        let name = match obj_int(fields, "nameTextMapHash") {
            Some(x) => x,
            None => {
                return None;
            },
        };
        let icon = match obj_str(fields, "icon") {
            Some(x) => x,
            None => {
                return None;
            },
        };
        Some(MonsterDescribeElement { id, name_text_map_hash: name, icon })
    }
}

} // verus!
