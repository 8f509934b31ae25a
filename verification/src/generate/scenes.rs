//! The scene category: output entry.  Scene names come from the raw
//! table's script names and are not localized.

use vstd::prelude::*;
use vstd::string::*;

use crate::commands::{generate_command, lemma_command_model, spec_command_model, CommandMap,
    GameType};
use crate::generate::output::{merge_entry, rd_model, rds_model, spec_merge_entry, EntryModel,
    ResultData};
use crate::gi::scenes::{Scene, SceneType};
use crate::handbook::{Category, Language};

verus! {

/// One output entry of the scene category.
#[derive(Debug, PartialEq, Eq)]
pub struct ScenesResult {
    pub id: i64,
    pub scene_type: SceneType,
    pub name: String,
    pub category: Category,
    pub commands: CommandMap,
}

/// The fresh output entry for one scene row: its commands are the
/// transport commands for its id, and its name is the script name.
pub open spec fn fresh_scene_model(rec: Scene) -> EntryModel {
    EntryModel {
        category: Category::Scenes,
        id: rec.id as int,
        names: Seq::empty(),
        descs: Seq::empty(),
        image: None,
        out_category: Category::Scenes,
        rarity: None,
        commands: spec_command_model(
            Category::Scenes,
            (rec.id as u32) as nat,
            "/tp"@,
            GameType::GenshinImpact,
        ),
        scene_type: Some(rec.scene_type),
        scene_name: Some(rec.script_data@),
    }
}

/// What one scene row does to the collection: scenes carry no
/// localized text, so a second pass over the same id changes nothing.
pub open spec fn spec_scene_step(s: Seq<EntryModel>, rec: Scene, lang: Language) -> Seq<
    EntryModel,
> {
    spec_merge_entry(s, fresh_scene_model(rec), lang, rec.script_data@, None)
}

/// The whole scene pass over the raw rows, in order.
pub open spec fn spec_generate_scenes(
    s: Seq<EntryModel>,
    recs: Seq<Scene>,
    lang: Language,
) -> Seq<EntryModel>
    decreases recs.len(),
{
    if recs.len() == 0 {
        s
    } else {
        spec_scene_step(spec_generate_scenes(s, recs.drop_last(), lang), recs.last(), lang)
    }
}

/// Runs the scene pass: each id appears once, with its kind, script
/// name, and transport commands.  Returns the row count.
pub fn generate_scenes(
    data: &Vec<Scene>,
    lang: &Language,
    result: &mut Vec<ResultData>,
) -> (count: usize)
    ensures
        rds_model(final(result)@) == spec_generate_scenes(
            rds_model(old(result)@),
            data@,
            *lang,
        ),
        count == data@.len(),
{
    let n = data.len();
    let mut i: usize = 0;
    proof {
        assert(data@.take(0) =~= Seq::<Scene>::empty());
    }
    while i < n
        invariant
            i <= n,
            n == data@.len(),
            rds_model(result@) == spec_generate_scenes(
                rds_model(old(result)@),
                data@.take(i as int),
                *lang,
            ),
        decreases n - i,
    {
        proof {
            assert(data@.take(i + 1).drop_last() =~= data@.take(i as int));
            assert(data@.take(i + 1).last() == data@[i as int]);
        }
        let rec = &data[i];
        let commands = generate_command(
            Category::Scenes,
            #[verifier::truncate] (rec.id as u32),
            "/tp",
            GameType::GenshinImpact,
        );
        proof {
            lemma_command_model(
                commands,
                Category::Scenes,
                (rec.id as u32) as nat,
                "/tp"@,
                GameType::GenshinImpact,
            );
        }
        let name = rec.script_data.clone();
        let fresh = ResultData::Scenes(
            ScenesResult {
                id: rec.id,
                scene_type: rec.scene_type,
                name: name.clone(),
                category: Category::Scenes,
                commands,
            },
        );
        proof {
            assert(rd_model(fresh) =~~= fresh_scene_model(data@[i as int]));
        }
        merge_entry(result, fresh, *lang, name, None);
        i += 1;
    }
    proof {
        assert(data@.take(n as int) =~= data@);
    }
    n
}

} // verus!
