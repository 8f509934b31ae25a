//! The raw avatar table row of the second game.

use vstd::prelude::*;

use crate::json::{obj_get, obj_int, obj_str, spec_obj_get, spec_obj_int, spec_obj_str, FromJson,
    JsonValue};
use crate::sr::{obj_hash, spec_obj_hash};
use crate::text::str_eq;

verus! {

/// A nested text reference: the hash of a localized string.
pub struct Avatar {
    pub hash: i64,
}

/// The element a character deals damage with.
#[derive(Debug, Clone, Copy, PartialEq, Eq, Structural)]
pub enum DamageType {
    Fire,
    Ice,
    Imaginary,
    Physical,
    Quantum,
    Thunder,
    Wind,
}

/// The damage type a JSON value denotes.
pub open spec fn spec_damage_type_from_json(v: JsonValue) -> Option<DamageType> {
    match v {
        JsonValue::Str(s) => if s@ == "Fire"@ {
            Some(DamageType::Fire)
        } else if s@ == "Ice"@ {
            Some(DamageType::Ice)
        } else if s@ == "Imaginary"@ {
            Some(DamageType::Imaginary)
        } else if s@ == "Physical"@ {
            Some(DamageType::Physical)
        } else if s@ == "Quantum"@ {
            Some(DamageType::Quantum)
        } else if s@ == "Thunder"@ {
            Some(DamageType::Thunder)
        } else if s@ == "Wind"@ {
            Some(DamageType::Wind)
        } else {
            None
        },
        _ => None,
    }
}

impl DamageType {
    /// Reads a damage type from a parsed value.
    pub fn from_json(v: &JsonValue) -> (r: Option<DamageType>)
        ensures
            r == spec_damage_type_from_json(*v),
    {
        match v {
            JsonValue::Str(s) => {
                if str_eq(s.as_str(), "Fire") {
                    Some(DamageType::Fire)
                } else if str_eq(s.as_str(), "Ice") {
                    Some(DamageType::Ice)
                } else if str_eq(s.as_str(), "Imaginary") {
                    Some(DamageType::Imaginary)
                } else if str_eq(s.as_str(), "Physical") {
                    Some(DamageType::Physical)
                } else if str_eq(s.as_str(), "Quantum") {
                    Some(DamageType::Quantum)
                } else if str_eq(s.as_str(), "Thunder") {
                    Some(DamageType::Thunder)
                } else if str_eq(s.as_str(), "Wind") {
                    Some(DamageType::Wind)
                } else {
                    None
                }
            },
            _ => None,
        }
    }
}

/// A character's rarity tier.
#[derive(Debug, Clone, Copy, PartialEq, Eq, Structural)]
pub enum Rarity {
    CombatPowerAvatarRarityType4,
    CombatPowerAvatarRarityType5,
}

/// The rarity tier a JSON value denotes.
pub open spec fn spec_avatar_rarity_from_json(v: JsonValue) -> Option<Rarity> {
    match v {
        JsonValue::Str(s) => if s@ == "CombatPowerAvatarRarityType4"@ {
            Some(Rarity::CombatPowerAvatarRarityType4)
        } else if s@ == "CombatPowerAvatarRarityType5"@ {
            Some(Rarity::CombatPowerAvatarRarityType5)
        } else {
            None
        },
        _ => None,
    }
}

/// The numeric stars of a character rarity tier.
pub open spec fn spec_avatar_rarity_number(r: Rarity) -> u8 {
    match r {
        Rarity::CombatPowerAvatarRarityType4 => 4,
        Rarity::CombatPowerAvatarRarityType5 => 5,
    }
}

impl Rarity {
    /// Reads a rarity tier from a parsed value.
    pub fn from_json(v: &JsonValue) -> (r: Option<Rarity>)
        ensures
            r == spec_avatar_rarity_from_json(*v),
    {
        match v {
            JsonValue::Str(s) => {
                if str_eq(s.as_str(), "CombatPowerAvatarRarityType4") {
                    Some(Rarity::CombatPowerAvatarRarityType4)
                } else if str_eq(s.as_str(), "CombatPowerAvatarRarityType5") {
                    Some(Rarity::CombatPowerAvatarRarityType5)
                } else {
                    None
                }
            },
            _ => None,
        }
    }

    /// The numeric stars of this tier.
    pub fn to_number(&self) -> (r: u8)
        ensures
            r == spec_avatar_rarity_number(*self),
    {
        match self {
            Rarity::CombatPowerAvatarRarityType4 => 4,
            Rarity::CombatPowerAvatarRarityType5 => 5,
        }
    }
}

/// One avatar row: id, name hash, rarity tier, damage type and the
/// head-icon path.
pub struct CharacterList {
    pub avatar_id: i64,
    pub avatar_name: Avatar,
    pub rarity: Rarity,
    pub damage_type: DamageType,
    pub default_avatar_head_icon_path: String,
}

impl FromJson for CharacterList {
    open spec fn json_parses(v: JsonValue) -> bool {
        &&& v is Obj
        &&& spec_obj_int(v->Obj_0@, "AvatarID"@) is Some
        &&& spec_obj_hash(v->Obj_0@, "AvatarName"@) is Some
        &&& (match spec_obj_get(v->Obj_0@, "Rarity"@) {
            Some(r) => spec_avatar_rarity_from_json(r) is Some,
            None => false,
        })
        &&& (match spec_obj_get(v->Obj_0@, "DamageType"@) {
            Some(d) => spec_damage_type_from_json(d) is Some,
            None => false,
        })
        &&& spec_obj_str(v->Obj_0@, "DefaultAvatarHeadIconPath"@) is Some
    }

    open spec fn json_extracts(&self, v: JsonValue) -> bool {
        &&& Some(self.avatar_id) == spec_obj_int(v->Obj_0@, "AvatarID"@)
        &&& Some(self.avatar_name.hash) == spec_obj_hash(v->Obj_0@, "AvatarName"@)
        &&& (match spec_obj_get(v->Obj_0@, "Rarity"@) {
            Some(r) => spec_avatar_rarity_from_json(r) == Some(self.rarity),
            None => false,
        })
        &&& (match spec_obj_get(v->Obj_0@, "DamageType"@) {
            Some(d) => spec_damage_type_from_json(d) == Some(self.damage_type),
            None => false,
        })
        &&& Some(self.default_avatar_head_icon_path@) == spec_obj_str(
            v->Obj_0@,
            "DefaultAvatarHeadIconPath"@,
        )
    }

    fn from_json(v: &JsonValue) -> (r: Option<Self>) {
        let fields = match v {
            JsonValue::Obj(fields) => fields,
            _ => {
                return None;
            },
        };
        let avatar_id = match obj_int(fields, "AvatarID") {
            Some(x) => x,
            None => {
                return None;
            },
        };
        let name_hash = match obj_hash(fields, "AvatarName") {
            Some(x) => x,
            None => {
                return None;
            },
        };
        let rarity = match obj_get(fields, "Rarity") {
            Some(r) => match Rarity::from_json(r) {
                Some(x) => x,
                None => {
                    return None;
                },
            },
            None => {
                return None;
            },
        };
        let damage_type = match obj_get(fields, "DamageType") {
            Some(d) => match DamageType::from_json(d) {
                Some(x) => x,
                None => {
                    return None;
                },
            },
            None => {
                return None;
            },
        };
        let icon = match obj_str(fields, "DefaultAvatarHeadIconPath") {
            Some(x) => x,
            None => {
                return None;
            },
        };
        Some(
            CharacterList {
                avatar_id,
                avatar_name: Avatar { hash: name_hash },
                rarity,
                damage_type,
                default_avatar_head_icon_path: icon,
            },
        )
    }
}

} // verus!
