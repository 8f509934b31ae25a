//! The raw monster table row of the second game.

use vstd::prelude::*;

use crate::json::{obj_int, spec_obj_int, FromJson, JsonValue};
use crate::sr::{obj_hash, spec_obj_hash};

verus! {

/// A nested text reference: the hash of a localized string.
pub struct MonsterBattleIntroductionClass {
    pub hash: i64,
}

/// One monster row: id, name hash and introduction hash.
pub struct Monster {
    pub monster_id: i64,
    pub monster_name: MonsterBattleIntroductionClass,
    pub monster_introduction: MonsterBattleIntroductionClass,
}

impl FromJson for Monster {
    open spec fn json_parses(v: JsonValue) -> bool {
        &&& v is Obj
        &&& spec_obj_int(v->Obj_0@, "MonsterID"@) is Some
        &&& spec_obj_hash(v->Obj_0@, "MonsterName"@) is Some
        &&& spec_obj_hash(v->Obj_0@, "MonsterIntroduction"@) is Some
    }

    open spec fn json_extracts(&self, v: JsonValue) -> bool {
        &&& Some(self.monster_id) == spec_obj_int(v->Obj_0@, "MonsterID"@)
        &&& Some(self.monster_name.hash) == spec_obj_hash(v->Obj_0@, "MonsterName"@)
        &&& Some(self.monster_introduction.hash) == spec_obj_hash(
            v->Obj_0@,
            "MonsterIntroduction"@,
        )
    }

    fn from_json(v: &JsonValue) -> (r: Option<Self>) {
        let fields = match v {
            JsonValue::Obj(fields) => fields,
            _ => {
                return None;
            },
        };
        let id = match obj_int(fields, "MonsterID") {
            Some(x) => x,
            None => {
                return None;
            },
        };
        let name_hash = match obj_hash(fields, "MonsterName") {
            Some(x) => x,
            None => {
                return None;
            },
        };
        let intro_hash = match obj_hash(fields, "MonsterIntroduction") {
            Some(x) => x,
            None => {
                return None;
            },
        };
        Some(
            Monster {
                monster_id: id,
                monster_name: MonsterBattleIntroductionClass { hash: name_hash },
                monster_introduction: MonsterBattleIntroductionClass { hash: intro_hash },
            },
        )
    }
}

} // verus!
