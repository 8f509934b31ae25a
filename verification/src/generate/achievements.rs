//! The achievement category: output entry.  Only the first game has
//! an achievement table, so no cross-game record type is needed.

use vstd::prelude::*;
use vstd::string::*;

use crate::commands::{generate_command, lemma_command_model, spec_command_model, CommandMap,
    GameType};
use crate::generate::output::{merge_entry, rd_model, rds_model, spec_merge_entry, EntryModel,
    ResultData};
use crate::gi::achievement::Achievement;
use crate::handbook::{Category, Language};
use crate::utility::{tm_lookup, TextMap};

verus! {

/// One output entry of the achievement category.
#[derive(Debug, PartialEq, Eq)]
pub struct AchievementResult {
    pub id: i64,
    pub name: Vec<(Language, String)>,
    pub description: Vec<(Language, String)>,
    pub commands: CommandMap,
    pub category: Category,
}

/// The fresh output entry for one achievement row: its commands are
/// the grant commands for its id.
pub open spec fn fresh_achievement_model(
    rec: Achievement,
    lang: Language,
    name: Seq<char>,
    desc: Seq<char>,
) -> EntryModel {
    EntryModel {
        category: Category::Achievements,
        id: rec.id as int,
        names: seq![(lang, name)],
        descs: seq![(lang, desc)],
        image: None,
        out_category: Category::Achievements,
        rarity: None,
        commands: spec_command_model(
            Category::Achievements,
            (rec.id as u32) as nat,
            "/am grant"@,
            GameType::GenshinImpact,
        ),
        scene_type: None,
        scene_name: None,
    }
}

/// What one achievement row does to the collection.
pub open spec fn spec_achievement_step(
    s: Seq<EntryModel>,
    rec: Achievement,
    lang: Language,
    tm: Map<i64, String>,
) -> Seq<EntryModel> {
    let name = match tm_lookup(tm, rec.title_text_map_hash) {
        Some(t) => t,
        None => Seq::empty(),
    };
    let desc = match tm_lookup(tm, rec.desc_text_map_hash) {
        Some(t) => t,
        None => Seq::empty(),
    };
    spec_merge_entry(s, fresh_achievement_model(rec, lang, name, desc), lang, name, Some(desc))
}

/// The whole achievement pass over the raw rows, in order.
pub open spec fn spec_generate_achievements(
    s: Seq<EntryModel>,
    recs: Seq<Achievement>,
    lang: Language,
    tm: Map<i64, String>,
) -> Seq<EntryModel>
    decreases recs.len(),
{
    if recs.len() == 0 {
        s
    } else {
        spec_achievement_step(
            spec_generate_achievements(s, recs.drop_last(), lang, tm),
            recs.last(),
            lang,
            tm,
        )
    }
}

/// Runs the achievement pass: every row is merged, with empty text
/// substituted for unresolved hashes, and grant commands synthesized
/// once per id.  Returns the row count.
pub fn generate_achievements(
    data: &Vec<Achievement>,
    lang: &Language,
    text_map: &TextMap,
    result: &mut Vec<ResultData>,
) -> (count: usize)
    ensures
        rds_model(final(result)@) == spec_generate_achievements(
            rds_model(old(result)@),
            data@,
            *lang,
            text_map@,
        ),
        count == data@.len(),
{
    let n = data.len();
    let mut i: usize = 0;
    proof {
        assert(data@.take(0) =~= Seq::<Achievement>::empty());
    }
    while i < n
        invariant
            i <= n,
            n == data@.len(),
            rds_model(result@) == spec_generate_achievements(
                rds_model(old(result)@),
                data@.take(i as int),
                *lang,
                text_map@,
            ),
        decreases n - i,
    {
        proof {
            assert(data@.take(i + 1).drop_last() =~= data@.take(i as int));
            assert(data@.take(i + 1).last() == data@[i as int]);
        }
        let rec = &data[i];
        let name = match text_map.get(rec.title_text_map_hash) {
            Some(t) => t.clone(),
            None => String::new(),
        };
        let desc = match text_map.get(rec.desc_text_map_hash) {
            Some(t) => t.clone(),
            None => String::new(),
        };
        let commands = generate_command(
            Category::Achievements,
            #[verifier::truncate] (rec.id as u32),
            "/am grant",
            GameType::GenshinImpact,
        );
        proof {
            lemma_command_model(
                commands,
                Category::Achievements,
                (rec.id as u32) as nat,
                "/am grant"@,
                GameType::GenshinImpact,
            );
        }
        let mut names: Vec<(Language, String)> = Vec::new();
        names.push((*lang, name.clone()));
        let mut descs: Vec<(Language, String)> = Vec::new();
        descs.push((*lang, desc.clone()));
        let fresh = ResultData::Achievements(
            AchievementResult {
                id: rec.id,
                name: names,
                description: descs,
                category: Category::Achievements,
                commands,
            },
        );
        proof {
            assert(rd_model(fresh) =~~= fresh_achievement_model(
                data@[i as int],
                *lang,
                name@,
                desc@,
            ));
        }
        merge_entry(result, fresh, *lang, name, Some(desc));
        i += 1;
    }
    proof {
        assert(data@.take(n as int) =~= data@);
    }
    n
}

} // verus!
