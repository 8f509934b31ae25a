//! The quest category: normalized record and output entry.

use vstd::prelude::*;
use vstd::string::*;

use crate::commands::{cmd_map_model, command_map_matches, generate_command, CommandMap, GameType};
use crate::generate::output::{merge_entry, rd_model, rds_model, spec_merge_entry, EntryModel,
    ResultData};
use crate::utility::{tm_lookup, TextMap};
use crate::gi::main_quests::MainQuest;
use crate::handbook::{Category, Language};
use crate::sr::mission::MissionElement;

verus! {

/// One output entry of the quest category.
#[derive(Debug, PartialEq, Eq)]
pub struct MainQuestResult {
    pub id: i64,
    pub name: Vec<(Language, String)>,
    pub description: Vec<(Language, String)>,
    pub category: Category,
    pub commands: CommandMap,
}

/// A quest record normalized from either game's schema.
pub struct MissionData {
    pub id: i64,
    pub name: i64,
    pub description: Option<i64>,
    pub commands: CommandMap,
}

/// How a normalized quest record relates to a first-game row.
pub open spec fn spec_quest_from_genshin(r: MissionData, q: MainQuest) -> bool {
    &&& r.id == q.id
    &&& r.name == q.title_text_map_hash
    &&& r.description == Some(q.desc_text_map_hash)
    &&& command_map_matches(
        r.commands,
        Category::Quests,
        (q.id as u32) as nat,
        "/q"@,
        GameType::GenshinImpact,
    )
}

/// How a normalized quest record relates to a second-game row.
pub open spec fn spec_quest_from_star_rail(r: MissionData, q: MissionElement) -> bool {
    &&& r.id == q.main_mission_id
    &&& r.name == q.name.hash
    &&& r.description is None
    &&& command_map_matches(
        r.commands,
        Category::Quests,
        (q.main_mission_id as u32) as nat,
        "/q"@,
        GameType::HonkaiStarRail,
    )
}

impl MissionData {
    /// Normalizes a first-game main-quest row.
    pub fn from_genshin(q: &MainQuest) -> (r: Self)
        ensures
            spec_quest_from_genshin(r, *q),
    {
        let commands = generate_command(
            Category::Quests,
            #[verifier::truncate] (q.id as u32),
            "/q",
            GameType::GenshinImpact,
        );
        MissionData {
            id: q.id,
            name: q.title_text_map_hash,
            description: Some(q.desc_text_map_hash),
            commands,
        }
    }

    /// Normalizes a second-game main-mission row.
    pub fn from_star_rail(q: &MissionElement) -> (r: Self)
        ensures
            spec_quest_from_star_rail(r, *q),
    {
        let commands = generate_command(
            Category::Quests,
            #[verifier::truncate] (q.main_mission_id as u32),
            "/q",
            GameType::HonkaiStarRail,
        );
        MissionData { id: q.main_mission_id, name: q.name.hash, description: None, commands }
    }
}

/// The fresh output entry for one quest record.
pub open spec fn fresh_quest_model(
    rec: MissionData,
    lang: Language,
    name: Seq<char>,
    desc: Seq<char>,
) -> EntryModel {
    EntryModel {
        category: Category::Quests,
        id: rec.id as int,
        names: seq![(lang, name)],
        descs: seq![(lang, desc)],
        image: None,
        out_category: Category::Quests,
        rarity: None,
        commands: cmd_map_model(rec.commands),
        scene_type: None,
        scene_name: None,
    }
}

/// What one quest record does to the collection: its title and
/// description, empty when absent or unresolved, are merged under
/// identity `(Quests, id)`.
pub open spec fn spec_quest_step(
    s: Seq<EntryModel>,
    rec: MissionData,
    lang: Language,
    tm: Map<i64, String>,
) -> Seq<EntryModel> {
    let name = match tm_lookup(tm, rec.name) {
        Some(t) => t,
        None => Seq::empty(),
    };
    let desc = match rec.description {
        Some(h) => match tm_lookup(tm, h) {
            Some(t) => t,
            None => Seq::empty(),
        },
        None => Seq::empty(),
    };
    spec_merge_entry(s, fresh_quest_model(rec, lang, name, desc), lang, name, Some(desc))
}

/// The whole quest pass over a record list, in order.
pub open spec fn spec_generate_quests(
    s: Seq<EntryModel>,
    recs: Seq<MissionData>,
    lang: Language,
    tm: Map<i64, String>,
) -> Seq<EntryModel>
    decreases recs.len(),
{
    if recs.len() == 0 {
        s
    } else {
        spec_quest_step(
            spec_generate_quests(s, recs.drop_last(), lang, tm),
            recs.last(),
            lang,
            tm,
        )
    }
}

/// Runs the quest pass: every record is merged, with empty text
/// substituted for unresolved hashes.  Returns the record count.
pub fn generate_quests(
    data: &Vec<MissionData>,
    lang: &Language,
    text_map: &TextMap,
    result: &mut Vec<ResultData>,
) -> (count: usize)
    ensures
        rds_model(final(result)@) == spec_generate_quests(
            rds_model(old(result)@),
            data@,
            *lang,
            text_map@,
        ),
        count == data@.len(),
{
    let n = data.len();
    let mut i: usize = 0;
    proof {
        assert(data@.take(0) =~= Seq::<MissionData>::empty());
    }
    while i < n
        invariant
            i <= n,
            n == data@.len(),
            rds_model(result@) == spec_generate_quests(
                rds_model(old(result)@),
                data@.take(i as int),
                *lang,
                text_map@,
            ),
        decreases n - i,
    {
        proof {
            assert(data@.take(i + 1).drop_last() =~= data@.take(i as int));
            assert(data@.take(i + 1).last() == data@[i as int]);
        }
        let rec = &data[i];
        let name = match text_map.get(rec.name) {
            Some(t) => t.clone(),
            None => String::new(),
        };
        let desc = match rec.description {
            Some(h) => match text_map.get(h) {
                Some(t) => t.clone(),
                None => String::new(),
            },
            None => String::new(),
        };
        let mut names: Vec<(Language, String)> = Vec::new();
        names.push((*lang, name.clone()));
        let mut descs: Vec<(Language, String)> = Vec::new();
        descs.push((*lang, desc.clone()));
        let fresh = ResultData::Quests(
            MainQuestResult {
                id: rec.id,
                name: names,
                description: descs,
                category: Category::Quests,
                commands: rec.commands.clone(),
            },
        );
        proof {
            assert(rd_model(fresh) =~~= fresh_quest_model(
                data@[i as int],
                *lang,
                name@,
                desc@,
            ));
        }
        merge_entry(result, fresh, *lang, name, Some(desc));
        i += 1;
    }
    proof {
        assert(data@.take(n as int) =~= data@);
    }
    n
}

} // verus!
