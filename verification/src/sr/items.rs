//! The raw item table row of the second game.

use vstd::prelude::*;

use crate::json::{obj_get, obj_int, obj_str, spec_obj_get, spec_obj_int, spec_obj_str, FromJson,
    JsonValue};
use crate::sr::{obj_hash, spec_obj_hash};
use crate::text::str_eq;

verus! {

/// A nested text reference: the hash of a localized string.
pub struct Item {
    pub hash: i64,
}

/// An item's rarity tier.
#[derive(Debug, Clone, Copy, PartialEq, Eq, Structural)]
pub enum Rarity {
    Normal,
    NotNormal,
    Rare,
    SuperRare,
    VeryRare,
}

/// The rarity tier a JSON value denotes.
pub open spec fn spec_item_rarity_from_json(v: JsonValue) -> Option<Rarity> {
    match v {
        JsonValue::Str(s) => if s@ == "Normal"@ {
            Some(Rarity::Normal)
        } else if s@ == "NotNormal"@ {
            Some(Rarity::NotNormal)
        } else if s@ == "Rare"@ {
            Some(Rarity::Rare)
        } else if s@ == "SuperRare"@ {
            Some(Rarity::SuperRare)
        } else if s@ == "VeryRare"@ {
            Some(Rarity::VeryRare)
        } else {
            None
        },
        _ => None,
    }
}

/// The numeric stars of an item rarity tier.
pub open spec fn spec_item_rarity_number(r: Rarity) -> i64 {
    match r {
        Rarity::Normal => 1,
        Rarity::NotNormal => 2,
        Rarity::Rare => 3,
        Rarity::VeryRare => 4,
        Rarity::SuperRare => 5,
    }
}

impl Rarity {
    /// Reads a rarity tier from a parsed value.
    pub fn from_json(v: &JsonValue) -> (r: Option<Rarity>)
        ensures
            r == spec_item_rarity_from_json(*v),
    {
        match v {
            JsonValue::Str(s) => {
                if str_eq(s.as_str(), "Normal") {
                    Some(Rarity::Normal)
                } else if str_eq(s.as_str(), "NotNormal") {
                    Some(Rarity::NotNormal)
                } else if str_eq(s.as_str(), "Rare") {
                    Some(Rarity::Rare)
                } else if str_eq(s.as_str(), "SuperRare") {
                    Some(Rarity::SuperRare)
                } else if str_eq(s.as_str(), "VeryRare") {
                    Some(Rarity::VeryRare)
                } else {
                    None
                }
            },
            _ => None,
        }
    }

    /// The numeric stars of this tier.
    pub fn to_number(&self) -> (r: i64)
        ensures
            r == spec_item_rarity_number(*self),
    {
        match self {
            Rarity::Normal => 1,
            Rarity::NotNormal => 2,
            Rarity::Rare => 3,
            Rarity::VeryRare => 4,
            Rarity::SuperRare => 5,
        }
    }
}

/// One item row: id, rarity tier, name and description hashes, and
/// the icon path.
pub struct Items {
    pub id: i64,
    pub rarity: Rarity,
    pub item_name: Item,
    pub item_desc: Item,
    pub item_icon_path: String,
}

impl FromJson for Items {
    open spec fn json_parses(v: JsonValue) -> bool {
        &&& v is Obj
        &&& spec_obj_int(v->Obj_0@, "ID"@) is Some
        &&& (match spec_obj_get(v->Obj_0@, "Rarity"@) {
            Some(r) => spec_item_rarity_from_json(r) is Some,
            None => false,
        })
        &&& spec_obj_hash(v->Obj_0@, "ItemName"@) is Some
        &&& spec_obj_hash(v->Obj_0@, "ItemDesc"@) is Some
        &&& spec_obj_str(v->Obj_0@, "ItemIconPath"@) is Some
    }

    open spec fn json_extracts(&self, v: JsonValue) -> bool {
        &&& Some(self.id) == spec_obj_int(v->Obj_0@, "ID"@)
        &&& (match spec_obj_get(v->Obj_0@, "Rarity"@) {
            Some(r) => spec_item_rarity_from_json(r) == Some(self.rarity),
            None => false,
        })
        &&& Some(self.item_name.hash) == spec_obj_hash(v->Obj_0@, "ItemName"@)
        &&& Some(self.item_desc.hash) == spec_obj_hash(v->Obj_0@, "ItemDesc"@)
        &&& Some(self.item_icon_path@) == spec_obj_str(v->Obj_0@, "ItemIconPath"@)
    }

    fn from_json(v: &JsonValue) -> (r: Option<Self>) {
        let fields = match v {
            JsonValue::Obj(fields) => fields,
            _ => {
                return None;
            },
        };
        let id = match obj_int(fields, "ID") {
            Some(x) => x,
            None => {
                return None;
            },
        };
        let rarity = match obj_get(fields, "Rarity") {
            Some(r) => match Rarity::from_json(r) {
                Some(x) => x,
                None => {
                    return None;
                },
            },
            None => {
                return None;
            },
        };
        let name_hash = match obj_hash(fields, "ItemName") {
            Some(x) => x,
            None => {
                return None;
            },
        };
        let desc_hash = match obj_hash(fields, "ItemDesc") {
            Some(x) => x,
            None => {
                return None;
            },
        };
        let icon = match obj_str(fields, "ItemIconPath") {
            Some(x) => x,
            None => {
                return None;
            },
        };
        Some(
            Items {
                id,
                rarity,
                item_name: Item { hash: name_hash },
                item_desc: Item { hash: desc_hash },
                item_icon_path: icon,
            },
        )
    }
}

} // verus!
