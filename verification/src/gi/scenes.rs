//! The raw scene table row, with its scene-kind code.

use vstd::prelude::*;

use crate::json::{obj_get, obj_int, obj_str, spec_obj_get, spec_obj_int, spec_obj_str, FromJson,
    JsonValue};
use crate::text::str_eq;

verus! {

/// The kind of a scene, as the table spells it.
#[derive(Debug, Clone, Copy, PartialEq, Eq, Structural)]
pub enum SceneType {
    Dungeon,
    HomeRoom,
    HomeWorld,
    Room,
    World,
}

/// The table spelling of each scene kind.
pub open spec fn spec_scene_type_token(t: SceneType) -> Seq<char> {
    match t {
        SceneType::Dungeon => "SCENE_DUNGEON"@,
        SceneType::HomeRoom => "SCENE_HOME_ROOM"@,
        SceneType::HomeWorld => "SCENE_HOME_WORLD"@,
        SceneType::Room => "SCENE_ROOM"@,
        SceneType::World => "SCENE_WORLD"@,
    }
}

/// The scene kind a JSON value denotes, if it is a known spelling.
pub open spec fn spec_scene_type_from_json(v: JsonValue) -> Option<SceneType> {
    match v {
        JsonValue::Str(s) => if s@ == "SCENE_DUNGEON"@ {
            Some(SceneType::Dungeon)
        } else if s@ == "SCENE_HOME_ROOM"@ {
            Some(SceneType::HomeRoom)
        } else if s@ == "SCENE_HOME_WORLD"@ {
            Some(SceneType::HomeWorld)
        } else if s@ == "SCENE_ROOM"@ {
            Some(SceneType::Room)
        } else if s@ == "SCENE_WORLD"@ {
            Some(SceneType::World)
        } else {
            None
        },
        _ => None,
    }
}

impl SceneType {
    /// Reads a scene kind from a parsed value; an unknown spelling
    /// rejects the row.
    pub fn from_json(v: &JsonValue) -> (r: Option<SceneType>)
        ensures
            r == spec_scene_type_from_json(*v),
    {
        match v {
            JsonValue::Str(s) => {
                if str_eq(s.as_str(), "SCENE_DUNGEON") {
                    Some(SceneType::Dungeon)
                } else if str_eq(s.as_str(), "SCENE_HOME_ROOM") {
                    Some(SceneType::HomeRoom)
                } else if str_eq(s.as_str(), "SCENE_HOME_WORLD") {
                    Some(SceneType::HomeWorld)
                } else if str_eq(s.as_str(), "SCENE_ROOM") {
                    Some(SceneType::Room)
                } else if str_eq(s.as_str(), "SCENE_WORLD") {
                    Some(SceneType::World)
                } else {
                    None
                }
            },
            _ => None,
        }
    }

    /// The table spelling of this scene kind.
    pub fn token(&self) -> (r: String)
        ensures
            r@ == spec_scene_type_token(*self),
    {
        match self {
            SceneType::Dungeon => String::from_str("SCENE_DUNGEON"),
            SceneType::HomeRoom => String::from_str("SCENE_HOME_ROOM"),
            SceneType::HomeWorld => String::from_str("SCENE_HOME_WORLD"),
            SceneType::Room => String::from_str("SCENE_ROOM"),
            SceneType::World => String::from_str("SCENE_WORLD"),
        }
    }
}

/// One scene row: id, kind, and the script name that serves as its
/// display name.
pub struct Scene {
    pub id: i64,
    pub scene_type: SceneType,
    pub script_data: String,
}

impl FromJson for Scene {
    open spec fn json_parses(v: JsonValue) -> bool {
        &&& v is Obj
        &&& spec_obj_int(v->Obj_0@, "id"@) is Some
        &&& (match spec_obj_get(v->Obj_0@, "type"@) {
            Some(t) => spec_scene_type_from_json(t) is Some,
            None => false,
        })
        &&& spec_obj_str(v->Obj_0@, "scriptData"@) is Some
    }

    open spec fn json_extracts(&self, v: JsonValue) -> bool {
        &&& Some(self.id) == spec_obj_int(v->Obj_0@, "id"@)
        &&& (match spec_obj_get(v->Obj_0@, "type"@) {
            Some(t) => spec_scene_type_from_json(t) == Some(self.scene_type),
            None => false,
        })
        &&& Some(self.script_data@) == spec_obj_str(v->Obj_0@, "scriptData"@)
    }

    fn from_json(v: &JsonValue) -> (r: Option<Self>) {
        let fields = match v {
            JsonValue::Obj(fields) => fields,
            _ => {
                return None;
            },
        };
        let id = match obj_int(fields, "id") {
            Some(x) => x,
            None => {
                return None;
            },
        };
        let scene_type = match obj_get(fields, "type") {
            Some(t) => match SceneType::from_json(t) {
                Some(x) => x,
                None => {
                    return None;
                },
            },
            None => {
                return None;
            },
        };
        let script_data = match obj_str(fields, "scriptData") {
            Some(x) => x,
            None => {
                return None;
            },
        };
        Some(Scene { id, scene_type, script_data })
    }
}

} // verus!
