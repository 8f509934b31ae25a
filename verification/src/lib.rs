//! Verified core of a handbook generator for game administration tools.
//!
//! The library turns raw per-category game export tables and per-language
//! localization tables into a merged, multilingual catalog of entities,
//! each annotated with generated admin-console command variants, and offers
//! a search over a previously generated catalog.  All file and network I/O
//! stays outside; the library works on plain values handed to it.

pub mod commands;
pub mod generate;
pub mod gi;
pub mod gm;
pub mod handbook;
pub mod json;
pub mod search;
pub mod sr;
pub mod text;
pub mod utility;
