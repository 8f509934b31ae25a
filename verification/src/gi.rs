//! Raw export-table schemas of the first game: one module per table,
//! each a plain record parsed from one JSON array element.

pub mod achievement;
pub mod artifacts;
pub mod category;
pub mod characters;
pub mod dungeons;
pub mod main_quests;
pub mod materials;
pub mod monsters;
pub mod scenes;
pub mod weapons;
