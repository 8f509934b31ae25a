//! The dungeon category: output entry.  Only the first game has a
//! dungeon table.

use vstd::prelude::*;
use vstd::string::*;

use crate::commands::{generate_command, lemma_command_model, spec_command_model, CommandMap,
    GameType};
use crate::generate::output::{merge_entry, rd_model, rds_model, spec_merge_entry, EntryModel,
    ResultData};
use crate::gi::dungeons::Dungeon;
use crate::handbook::{Category, Language};
use crate::utility::{tm_lookup, TextMap};

verus! {

/// One output entry of the dungeon category.
#[derive(Debug, PartialEq, Eq)]
pub struct DungeonsResult {
    pub id: i64,
    pub name: Vec<(Language, String)>,
    pub description: Vec<(Language, String)>,
    pub category: Category,
    pub commands: CommandMap,
}

/// The fresh output entry for one dungeon row: its commands are the
/// transport commands for its id.
pub open spec fn fresh_dungeon_model(
    rec: Dungeon,
    lang: Language,
    name: Seq<char>,
    desc: Seq<char>,
) -> EntryModel {
    EntryModel {
        category: Category::Dungeons,
        id: rec.id as int,
        names: seq![(lang, name)],
        descs: seq![(lang, desc)],
        image: None,
        out_category: Category::Dungeons,
        rarity: None,
        commands: spec_command_model(
            Category::Dungeons,
            (rec.id as u32) as nat,
            "/tp"@,
            GameType::GenshinImpact,
        ),
        scene_type: None,
        scene_name: None,
    }
}

/// What one dungeon row does to the collection.
pub open spec fn spec_dungeon_step(
    s: Seq<EntryModel>,
    rec: Dungeon,
    lang: Language,
    tm: Map<i64, String>,
) -> Seq<EntryModel> {
    let name = match tm_lookup(tm, rec.name_text_map_hash) {
        Some(t) => t,
        None => Seq::empty(),
    };
    let desc = match tm_lookup(tm, rec.desc_text_map_hash) {
        Some(t) => t,
        None => Seq::empty(),
    };
    spec_merge_entry(s, fresh_dungeon_model(rec, lang, name, desc), lang, name, Some(desc))
}

/// The whole dungeon pass over the raw rows, in order.
pub open spec fn spec_generate_dungeons(
    s: Seq<EntryModel>,
    recs: Seq<Dungeon>,
    lang: Language,
    tm: Map<i64, String>,
) -> Seq<EntryModel>
    decreases recs.len(),
{
    if recs.len() == 0 {
        s
    } else {
        spec_dungeon_step(
            spec_generate_dungeons(s, recs.drop_last(), lang, tm),
            recs.last(),
            lang,
            tm,
        )
    }
}

/// Runs the dungeon pass: every row is merged, with empty text
/// substituted for unresolved hashes, and transport commands
/// synthesized once per id.  Returns the row count.
pub fn generate_dungeons(
    data: &Vec<Dungeon>,
    lang: &Language,
    text_map: &TextMap,
    result: &mut Vec<ResultData>,
) -> (count: usize)
    ensures
        rds_model(final(result)@) == spec_generate_dungeons(
            rds_model(old(result)@),
            data@,
            *lang,
            text_map@,
        ),
        count == data@.len(),
{
    let n = data.len();
    let mut i: usize = 0;
    proof {
        assert(data@.take(0) =~= Seq::<Dungeon>::empty());
    }
    while i < n
        invariant
            i <= n,
            n == data@.len(),
            rds_model(result@) == spec_generate_dungeons(
                rds_model(old(result)@),
                data@.take(i as int),
                *lang,
                text_map@,
            ),
        decreases n - i,
    {
        proof {
            assert(data@.take(i + 1).drop_last() =~= data@.take(i as int));
            assert(data@.take(i + 1).last() == data@[i as int]);
        }
        let rec = &data[i];
        let name = match text_map.get(rec.name_text_map_hash) {
            Some(t) => t.clone(),
            None => String::new(),
        };
        let desc = match text_map.get(rec.desc_text_map_hash) {
            Some(t) => t.clone(),
            None => String::new(),
        };
        let commands = generate_command(
            Category::Dungeons,
            #[verifier::truncate] (rec.id as u32),
            "/tp",
            GameType::GenshinImpact,
        );
        proof {
            lemma_command_model(
                commands,
                Category::Dungeons,
                (rec.id as u32) as nat,
                "/tp"@,
                GameType::GenshinImpact,
            );
        }
        let mut names: Vec<(Language, String)> = Vec::new();
        names.push((*lang, name.clone()));
        let mut descs: Vec<(Language, String)> = Vec::new();
        descs.push((*lang, desc.clone()));
        let fresh = ResultData::Dungeons(
            DungeonsResult {
                id: rec.id,
                name: names,
                description: descs,
                category: Category::Dungeons,
                commands,
            },
        );
        proof {
            assert(rd_model(fresh) =~~= fresh_dungeon_model(
                data@[i as int],
                *lang,
                name@,
                desc@,
            ));
        }
        merge_entry(result, fresh, *lang, name, Some(desc));
        i += 1;
    }
    proof {
        assert(data@.take(n as int) =~= data@);
    }
    n
}

} // verus!
