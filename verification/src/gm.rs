//! The searchable handbook table: the entry shape a previously
//! generated handbook file loads into, and the search feature's error
//! type.

use vstd::prelude::*;
use vstd::string::*;

use crate::text::str_eq;

verus! {

/// A loaded handbook, ready to search.
pub type Gmhandbook = Vec<GmhandbookElement>;

/// The category token an entry carries; `Unknown` stands for any
/// unrecognized token in a line-oriented source file.
#[derive(Debug, Clone, Copy, PartialEq, Eq, Structural, Hash)]
pub enum Category {
    Achievements,
    Artifacts,
    Characters,
    Dungeons,
    Materials,
    Monsters,
    Quests,
    Scenes,
    Weapons,
    Avatars,
    Items,
    PropsLC,
    NPCMonstersLC,
    BattleStages,
    BattleMonsters,
    Mazes,
    Gadgets,
    Unknown,
}

/// The display name of each category; two tokens render as
/// `Characters`.
pub open spec fn spec_gm_category_name(c: Category) -> Seq<char> {
    match c {
        Category::Achievements => "Achievements"@,
        Category::Artifacts => "Artifacts"@,
        Category::Characters => "Characters"@,
        Category::Avatars => "Characters"@,
        Category::Dungeons => "Dungeons"@,
        Category::Materials => "Materials"@,
        Category::Monsters => "Monsters"@,
        Category::Quests => "Quests"@,
        Category::Scenes => "Scenes"@,
        Category::Weapons => "Weapons"@,
        Category::Items => "Items"@,
        Category::PropsLC => "Props (Spawnable)"@,
        Category::NPCMonstersLC => "NPC Monsters (Spawnable)"@,
        Category::BattleStages => "Battle Stages"@,
        Category::BattleMonsters => "Battle Monsters"@,
        Category::Mazes => "Mazes"@,
        Category::Gadgets => "Gadgets"@,
        Category::Unknown => "Unknown"@,
    }
}

/// The category a token names, by exact spelling, if any.
pub open spec fn spec_gm_category_from_str(s: Seq<char>) -> Option<Category> {
    if s == "Achievements"@ {
        Some(Category::Achievements)
    } else if s == "Artifacts"@ {
        Some(Category::Artifacts)
    } else if s == "Characters"@ {
        Some(Category::Characters)
    } else if s == "Avatars"@ {
        Some(Category::Avatars)
    } else if s == "Dungeons"@ {
        Some(Category::Dungeons)
    } else if s == "Materials"@ {
        Some(Category::Materials)
    } else if s == "Monsters"@ {
        Some(Category::Monsters)
    } else if s == "Quests"@ {
        Some(Category::Quests)
    } else if s == "Scenes"@ {
        Some(Category::Scenes)
    } else if s == "Weapons"@ {
        Some(Category::Weapons)
    } else if s == "Items"@ {
        Some(Category::Items)
    } else if s == "Props (Spawnable)"@ {
        Some(Category::PropsLC)
    } else if s == "NPC Monsters (Spawnable)"@ {
        Some(Category::NPCMonstersLC)
    } else if s == "Battle Stages"@ {
        Some(Category::BattleStages)
    } else if s == "Battle Monsters"@ {
        Some(Category::BattleMonsters)
    } else if s == "Mazes"@ {
        Some(Category::Mazes)
    } else if s == "Gadgets"@ {
        Some(Category::Gadgets)
    } else {
        None
    }
}

impl Category {
    /// The display name of this category.
    pub fn name(&self) -> (r: String)
        ensures
            r@ == spec_gm_category_name(*self),
    {
        match self {
            Category::Achievements => String::from_str("Achievements"),
            Category::Artifacts => String::from_str("Artifacts"),
            Category::Characters => String::from_str("Characters"),
            Category::Avatars => String::from_str("Characters"),
            Category::Dungeons => String::from_str("Dungeons"),
            Category::Materials => String::from_str("Materials"),
            Category::Monsters => String::from_str("Monsters"),
            Category::Quests => String::from_str("Quests"),
            Category::Scenes => String::from_str("Scenes"),
            Category::Weapons => String::from_str("Weapons"),
            Category::Items => String::from_str("Items"),
            Category::PropsLC => String::from_str("Props (Spawnable)"),
            Category::NPCMonstersLC => String::from_str("NPC Monsters (Spawnable)"),
            Category::BattleStages => String::from_str("Battle Stages"),
            Category::BattleMonsters => String::from_str("Battle Monsters"),
            Category::Mazes => String::from_str("Mazes"),
            Category::Gadgets => String::from_str("Gadgets"),
            Category::Unknown => String::from_str("Unknown"),
        }
    }

    /// Parses a category token by exact spelling.
    pub fn from_str(s: &str) -> (r: Option<Category>)
        ensures
            r == spec_gm_category_from_str(s@),
    {
        if str_eq(s, "Achievements") {
            Some(Category::Achievements)
        } else if str_eq(s, "Artifacts") {
            Some(Category::Artifacts)
        } else if str_eq(s, "Characters") {
            Some(Category::Characters)
        } else if str_eq(s, "Avatars") {
            Some(Category::Avatars)
        } else if str_eq(s, "Dungeons") {
            Some(Category::Dungeons)
        } else if str_eq(s, "Materials") {
            Some(Category::Materials)
        } else if str_eq(s, "Monsters") {
            Some(Category::Monsters)
        } else if str_eq(s, "Quests") {
            Some(Category::Quests)
        } else if str_eq(s, "Scenes") {
            Some(Category::Scenes)
        } else if str_eq(s, "Weapons") {
            Some(Category::Weapons)
        } else if str_eq(s, "Items") {
            Some(Category::Items)
        } else if str_eq(s, "Props (Spawnable)") {
            Some(Category::PropsLC)
        } else if str_eq(s, "NPC Monsters (Spawnable)") {
            Some(Category::NPCMonstersLC)
        } else if str_eq(s, "Battle Stages") {
            Some(Category::BattleStages)
        } else if str_eq(s, "Battle Monsters") {
            Some(Category::BattleMonsters)
        } else if str_eq(s, "Mazes") {
            Some(Category::Mazes)
        } else if str_eq(s, "Gadgets") {
            Some(Category::Gadgets)
        } else {
            None
        }
    }
}

/// One command variant of a loaded handbook entry.
#[derive(Debug, PartialEq, Eq)]
pub struct Command {
    pub name: String,
    pub command: String,
}

impl Clone for Command {
    /// A copy with the same name and command.
    fn clone(&self) -> (r: Self)
        ensures
            r.name@ == self.name@,
            r.command@ == self.command@,
    {
        Command { name: self.name.clone(), command: self.command.clone() }
    }
}

/// The two consoles' command slots of a loaded handbook entry.
#[derive(Debug, PartialEq, Eq)]
pub struct Commands {
    pub gc: Vec<(String, Command)>,
    pub gio: Vec<(String, Command)>,
}

/// The per-language description block some handbook files carry.
#[derive(Debug, PartialEq, Eq)]
pub struct Description {
    pub jp: String,
    pub id: String,
    pub cht: String,
    pub th: String,
    pub fr: String,
    pub ru: String,
    pub en: String,
    pub chs: String,
}

impl Description {
    /// The default text of the block, its English entry.
    pub fn text(&self) -> (r: String)
        ensures
            r@ == self.en@,
    {
        self.en.clone()
    }
}

/// The scene kind tag a loaded entry may carry.
#[derive(Debug, Clone, Copy, PartialEq, Eq, Structural)]
pub enum Type {
    Dungeon,
    HomeRoom,
    HomeWorld,
    Room,
    World,
}

/// An entry's name: either one plain text, or a map keyed by
/// upper-case language tokens.
#[derive(Debug, PartialEq, Eq)]
pub enum NameUnion {
    Description(Vec<(String, String)>),
    String(String),
}

/// One loaded handbook entry.
#[derive(Debug, PartialEq, Eq)]
pub struct GmhandbookElement {
    pub id: i64,
    pub name: NameUnion,
    pub description: Option<Vec<(String, String)>>,
    pub image: Option<String>,
    pub category: Category,
    pub rarity: Option<i64>,
    pub commands: Option<Commands>,
    pub icon: Option<String>,
    pub gmhandbook_type: Option<Type>,
}

/// Why a search or reload failed.
#[derive(Debug)]
pub enum GmError {
    JsonDeserializeError(String),
    NoResultsFound(String),
    EmptySearchTerm,
    ReadHandbookContentError,
    PathEmpty,
    PathNotUpdated,
    WriteHandbookContentError(String),
}

impl GmError {
    /// The human-readable message for this error.
    pub fn message(&self) -> (r: String)
        ensures
            match self {
                GmError::JsonDeserializeError(e) => r@ == "Failed to deserialize JSON: "@ + e@,
                GmError::NoResultsFound(q) => r@ == "No results were found with query: "@ + q@,
                GmError::EmptySearchTerm => r@ == "Search term cannot be empty"@,
                GmError::ReadHandbookContentError => r@ == "Failed to read handbook content"@,
                GmError::PathEmpty => r@ == "Path cannot be empty"@,
                GmError::PathNotUpdated => r@
                    == "Path is the same as the current path. No need to update."@,
                GmError::WriteHandbookContentError(e) => r@
                    == "Failed to write handbook content: "@ + e@,
            },
    {
        match self {
            GmError::JsonDeserializeError(e) => {
                let mut s = String::from_str("Failed to deserialize JSON: ");
                s.append(e.as_str());
                s
            },
            GmError::NoResultsFound(q) => {
                let mut s = String::from_str("No results were found with query: ");
                s.append(q.as_str());
                s
            },
            GmError::EmptySearchTerm => String::from_str("Search term cannot be empty"),
            GmError::ReadHandbookContentError => String::from_str(
                "Failed to read handbook content",
            ),
            GmError::PathEmpty => String::from_str("Path cannot be empty"),
            GmError::PathNotUpdated => String::from_str(
                "Path is the same as the current path. No need to update.",
            ),
            GmError::WriteHandbookContentError(e) => {
                let mut s = String::from_str("Failed to write handbook content: ");
                s.append(e.as_str());
                s
            },
        }
    }
}

} // verus!
