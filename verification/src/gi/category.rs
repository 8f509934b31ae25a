//! The first game's own category set, the nine kinds its tables cover.

use vstd::prelude::*;

verus! {

/// A category of the first game's handbook.
#[derive(Debug, Clone, Copy, PartialEq, Eq, Structural)]
pub enum Category {
    Characters,
    Materials,
    Weapons,
    Artifacts,
    Achievements,
    Quests,
    Dungeons,
    Scenes,
    Monsters,
}

} // verus!
