//! The raw light-cone equipment table row of the second game.

use vstd::prelude::*;

use crate::json::{obj_get, obj_int, obj_str, spec_obj_get, spec_obj_int, spec_obj_str, FromJson,
    JsonValue};
use crate::sr::{obj_hash, spec_obj_hash};
use crate::text::str_eq;

verus! {

/// A nested text reference: the hash of a localized string.
pub struct Equipment {
    pub hash: i64,
}

/// A light cone's rarity tier.
#[derive(Debug, Clone, Copy, PartialEq, Eq, Structural)]
pub enum Rarity {
    CombatPowerLightconeRarity3,
    CombatPowerLightconeRarity4,
    CombatPowerLightconeRarity5,
}

/// The rarity tier a JSON value denotes.
pub open spec fn spec_cone_rarity_from_json(v: JsonValue) -> Option<Rarity> {
    match v {
        JsonValue::Str(s) => if s@ == "CombatPowerLightconeRarity3"@ {
            Some(Rarity::CombatPowerLightconeRarity3)
        } else if s@ == "CombatPowerLightconeRarity4"@ {
            Some(Rarity::CombatPowerLightconeRarity4)
        } else if s@ == "CombatPowerLightconeRarity5"@ {
            Some(Rarity::CombatPowerLightconeRarity5)
        } else {
            None
        },
        _ => None,
    }
}

/// The numeric stars of a light-cone rarity tier.
pub open spec fn spec_cone_rarity_number(r: Rarity) -> i64 {
    match r {
        Rarity::CombatPowerLightconeRarity3 => 3,
        Rarity::CombatPowerLightconeRarity4 => 4,
        Rarity::CombatPowerLightconeRarity5 => 5,
    }
}

impl Rarity {
    /// Reads a rarity tier from a parsed value.
    pub fn from_json(v: &JsonValue) -> (r: Option<Rarity>)
        ensures
            r == spec_cone_rarity_from_json(*v),
    {
        match v {
            JsonValue::Str(s) => {
                if str_eq(s.as_str(), "CombatPowerLightconeRarity3") {
                    Some(Rarity::CombatPowerLightconeRarity3)
                } else if str_eq(s.as_str(), "CombatPowerLightconeRarity4") {
                    Some(Rarity::CombatPowerLightconeRarity4)
                } else if str_eq(s.as_str(), "CombatPowerLightconeRarity5") {
                    Some(Rarity::CombatPowerLightconeRarity5)
                } else {
                    None
                }
            },
            _ => None,
        }
    }

    /// The numeric stars of this tier.
    pub fn to_number(&self) -> (r: i64)
        ensures
            r == spec_cone_rarity_number(*self),
    {
        match self {
            Rarity::CombatPowerLightconeRarity3 => 3,
            Rarity::CombatPowerLightconeRarity4 => 4,
            Rarity::CombatPowerLightconeRarity5 => 5,
        }
    }
}

/// One equipment row: id, name hash, rarity tier, and the image path.
pub struct LightCones {
    pub equipment_id: i64,
    pub equipment_name: Equipment,
    pub rarity: Rarity,
    pub image_path: String,
}

impl FromJson for LightCones {
    open spec fn json_parses(v: JsonValue) -> bool {
        &&& v is Obj
        &&& spec_obj_int(v->Obj_0@, "EquipmentID"@) is Some
        &&& spec_obj_hash(v->Obj_0@, "EquipmentName"@) is Some
        &&& (match spec_obj_get(v->Obj_0@, "Rarity"@) {
            Some(r) => spec_cone_rarity_from_json(r) is Some,
            None => false,
        })
        &&& spec_obj_str(v->Obj_0@, "ImagePath"@) is Some
    }

    open spec fn json_extracts(&self, v: JsonValue) -> bool {
        &&& Some(self.equipment_id) == spec_obj_int(v->Obj_0@, "EquipmentID"@)
        &&& Some(self.equipment_name.hash) == spec_obj_hash(v->Obj_0@, "EquipmentName"@)
        &&& (match spec_obj_get(v->Obj_0@, "Rarity"@) {
            Some(r) => spec_cone_rarity_from_json(r) == Some(self.rarity),
            None => false,
        })
        &&& Some(self.image_path@) == spec_obj_str(v->Obj_0@, "ImagePath"@)
    }

    fn from_json(v: &JsonValue) -> (r: Option<Self>) {
        let fields = match v {
            JsonValue::Obj(fields) => fields,
            _ => {
                return None;
            },
        };
        let equipment_id = match obj_int(fields, "EquipmentID") {
            Some(x) => x,
            None => {
                return None;
            },
        };
        let name_hash = match obj_hash(fields, "EquipmentName") {
            Some(x) => x,
            None => {
                return None;
            },
        };
        let rarity = match obj_get(fields, "Rarity") {
            Some(r) => match Rarity::from_json(r) {
                Some(x) => x,
                None => {
                    return None;
                },
            },
            None => {
                return None;
            },
        };
        let image_path = match obj_str(fields, "ImagePath") {
            Some(x) => x,
            None => {
                return None;
            },
        };
        Some(
            LightCones {
                equipment_id,
                equipment_name: Equipment { hash: name_hash },
                rarity,
                image_path,
            },
        )
    }
}

} // verus!
