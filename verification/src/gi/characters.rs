//! The raw character table row, with its quality-tier code.

use vstd::prelude::*;

use crate::json::{obj_get, obj_int, obj_str, spec_obj_get, spec_obj_int, spec_obj_str, FromJson,
    JsonValue};
use crate::text::str_eq;

verus! {

/// The quality tier a character row carries, as the table spells it.
#[derive(Debug, Clone, Copy, PartialEq, Eq, Structural)]
pub enum QualityType {
    QualityOrange,
    QualityPurple,
    QualityOrangeSP,
}

/// The table spelling of each quality tier.
pub open spec fn spec_quality_token(q: QualityType) -> Seq<char> {
    match q {
        QualityType::QualityOrange => "QUALITY_ORANGE"@,
        QualityType::QualityPurple => "QUALITY_PURPLE"@,
        QualityType::QualityOrangeSP => "QUALITY_ORANGE_SP"@,
    }
}

/// The quality tier a JSON value denotes, if it is one of the known
/// spellings.
pub open spec fn spec_quality_from_json(v: JsonValue) -> Option<QualityType> {
    match v {
        JsonValue::Str(s) => if s@ == "QUALITY_ORANGE"@ {
            Some(QualityType::QualityOrange)
        } else if s@ == "QUALITY_PURPLE"@ {
            Some(QualityType::QualityPurple)
        } else if s@ == "QUALITY_ORANGE_SP"@ {
            Some(QualityType::QualityOrangeSP)
        } else {
            None
        },
        _ => None,
    }
}

impl QualityType {
    /// Reads a quality tier from a parsed value; an unknown spelling
    /// rejects the row, as a strict decode does.
    pub fn from_json(v: &JsonValue) -> (r: Option<QualityType>)
        ensures
            r == spec_quality_from_json(*v),
    {
        match v {
            JsonValue::Str(s) => {
                if str_eq(s.as_str(), "QUALITY_ORANGE") {
                    Some(QualityType::QualityOrange)
                } else if str_eq(s.as_str(), "QUALITY_PURPLE") {
                    Some(QualityType::QualityPurple)
                } else if str_eq(s.as_str(), "QUALITY_ORANGE_SP") {
                    Some(QualityType::QualityOrangeSP)
                } else {
                    None
                }
            },
            _ => None,
        }
    }

    /// The numeric rarity of the tier: the orange tiers are five
    /// stars, purple is four.
    pub fn to_rarity(&self) -> (r: u8)
        ensures
            r == spec_quality_rarity(*self),
    {
        match self {
            QualityType::QualityOrange => 5,
            QualityType::QualityOrangeSP => 5,
            QualityType::QualityPurple => 4,
        }
    }
}

/// The numeric rarity of each quality tier.
pub open spec fn spec_quality_rarity(q: QualityType) -> u8 {
    match q {
        QualityType::QualityOrange => 5,
        QualityType::QualityOrangeSP => 5,
        QualityType::QualityPurple => 4,
    }
}

/// One character row: icon name, quality tier, description hash, id
/// and name hash.
pub struct Characters {
    pub icon_name: String,
    pub quality_type: QualityType,
    pub desc_text_map_hash: i64,
    pub id: i64,
    pub name_text_map_hash: i64,
}

impl FromJson for Characters {
    open spec fn json_parses(v: JsonValue) -> bool {
        &&& v is Obj
        &&& spec_obj_str(v->Obj_0@, "iconName"@) is Some
        &&& (match spec_obj_get(v->Obj_0@, "qualityType"@) {
            Some(q) => spec_quality_from_json(q) is Some,
            None => false,
        })
        &&& spec_obj_int(v->Obj_0@, "descTextMapHash"@) is Some
        &&& spec_obj_int(v->Obj_0@, "id"@) is Some
        &&& spec_obj_int(v->Obj_0@, "nameTextMapHash"@) is Some
    }

    open spec fn json_extracts(&self, v: JsonValue) -> bool {
        &&& Some(self.icon_name@) == spec_obj_str(v->Obj_0@, "iconName"@)
        &&& (match spec_obj_get(v->Obj_0@, "qualityType"@) {
            Some(q) => spec_quality_from_json(q) == Some(self.quality_type),
            None => false,
        })
        &&& Some(self.desc_text_map_hash) == spec_obj_int(v->Obj_0@, "descTextMapHash"@)
        &&& Some(self.id) == spec_obj_int(v->Obj_0@, "id"@)
        &&& Some(self.name_text_map_hash) == spec_obj_int(v->Obj_0@, "nameTextMapHash"@)
    }

    fn from_json(v: &JsonValue) -> (r: Option<Self>) {
        let fields = match v {
            JsonValue::Obj(fields) => fields,
            _ => {
                return None;
            },
        };
        let icon_name = match obj_str(fields, "iconName") {
            Some(x) => x,
            None => {
                return None;
            },
        };
        let quality_type = match obj_get(fields, "qualityType") {
            Some(q) => match QualityType::from_json(q) {
                Some(x) => x,
                None => {
                    return None;
                },
            },
            None => {
                return None;
            },
        };
        let desc = match obj_int(fields, "descTextMapHash") {
            Some(x) => x,
            None => {
                return None;
            },
        };
        let id = match obj_int(fields, "id") {
            Some(x) => x,
            None => {
                return None;
            },
        };
        let name = match obj_int(fields, "nameTextMapHash") {
            Some(x) => x,
            None => {
                return None;
            },
        };
        Some(
            Characters {
                icon_name,
                quality_type,
                desc_text_map_hash: desc,
                id,
                name_text_map_hash: name,
            },
        )
    }
}

} // verus!
