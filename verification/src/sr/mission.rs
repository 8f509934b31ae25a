//! The raw main-mission table row of the second game.

use vstd::prelude::*;

use crate::gi::materials::{opt_int, spec_opt_int, spec_opt_int_ok};
use crate::json::{obj_get, obj_int, spec_obj_get, spec_obj_int, FromJson, JsonValue};
use crate::sr::{obj_hash, spec_obj_hash};
use crate::text::str_eq;

verus! {

/// A nested text reference: the hash of a localized string.
pub struct Name {
    pub hash: i64,
}

/// The kind of a mission.
#[derive(Debug, Clone, Copy, PartialEq, Eq, Structural)]
pub enum MissionType {
    Branch,
    Companion,
    Daily,
    Gap,
    Main,
}

/// The mission kind a JSON value denotes.
pub open spec fn spec_mission_type_from_json(v: JsonValue) -> Option<MissionType> {
    match v {
        JsonValue::Str(s) => if s@ == "Branch"@ {
            Some(MissionType::Branch)
        } else if s@ == "Companion"@ {
            Some(MissionType::Companion)
        } else if s@ == "Daily"@ {
            Some(MissionType::Daily)
        } else if s@ == "Gap"@ {
            Some(MissionType::Gap)
        } else if s@ == "Main"@ {
            Some(MissionType::Main)
        } else {
            None
        },
        _ => None,
    }
}

impl MissionType {
    /// Reads a mission kind from a parsed value.
    pub fn from_json(v: &JsonValue) -> (r: Option<MissionType>)
        ensures
            r == spec_mission_type_from_json(*v),
    {
        match v {
            JsonValue::Str(s) => {
                if str_eq(s.as_str(), "Branch") {
                    Some(MissionType::Branch)
                } else if str_eq(s.as_str(), "Companion") {
                    Some(MissionType::Companion)
                } else if str_eq(s.as_str(), "Daily") {
                    Some(MissionType::Daily)
                } else if str_eq(s.as_str(), "Gap") {
                    Some(MissionType::Gap)
                } else if str_eq(s.as_str(), "Main") {
                    Some(MissionType::Main)
                } else {
                    None
                }
            },
            _ => None,
        }
    }
}

/// One mission row: id, kind, name hash, and the optional id of the
/// mission tracked next.
pub struct MissionElement {
    pub main_mission_id: i64,
    pub mission_type: MissionType,
    pub name: Name,
    pub next_track_main_mission: Option<i64>,
}

impl FromJson for MissionElement {
    open spec fn json_parses(v: JsonValue) -> bool {
        &&& v is Obj
        &&& spec_obj_int(v->Obj_0@, "MainMissionID"@) is Some
        &&& (match spec_obj_get(v->Obj_0@, "Type"@) {
            Some(t) => spec_mission_type_from_json(t) is Some,
            None => false,
        })
        &&& spec_obj_hash(v->Obj_0@, "Name"@) is Some
        &&& spec_opt_int_ok(v->Obj_0@, "NextTrackMainMission"@)
    }

    open spec fn json_extracts(&self, v: JsonValue) -> bool {
        &&& Some(self.main_mission_id) == spec_obj_int(v->Obj_0@, "MainMissionID"@)
        &&& (match spec_obj_get(v->Obj_0@, "Type"@) {
            Some(t) => spec_mission_type_from_json(t) == Some(self.mission_type),
            None => false,
        })
        &&& Some(self.name.hash) == spec_obj_hash(v->Obj_0@, "Name"@)
        &&& self.next_track_main_mission == spec_opt_int(v->Obj_0@, "NextTrackMainMission"@)
    }

    fn from_json(v: &JsonValue) -> (r: Option<Self>) {
        let fields = match v {
            JsonValue::Obj(fields) => fields,
            _ => {
                return None;
            },
        };
        let id = match obj_int(fields, "MainMissionID") {
            Some(x) => x,
            None => {
                return None;
            },
        };
        let mission_type = match obj_get(fields, "Type") {
            Some(t) => match MissionType::from_json(t) {
                Some(x) => x,
                None => {
                    return None;
                },
            },
            None => {
                return None;
            },
        };
        let name_hash = match obj_hash(fields, "Name") {
            Some(x) => x,
            None => {
                return None;
            },
        };
        let next = match opt_int(fields, "NextTrackMainMission") {
            Ok(x) => x,
            Err(_) => {
                return None;
            },
        };
        Some(
            MissionElement {
                main_mission_id: id,
                mission_type,
                name: Name { hash: name_hash },
                next_track_main_mission: next,
            },
        )
    }
}

} // verus!
