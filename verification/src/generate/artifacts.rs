//! The artifact category: normalized record and output entry.

use vstd::prelude::*;
use vstd::string::*;

use crate::commands::{cmd_map_model, command_map_matches, generate_command, CommandMap, GameType};
use crate::generate::output::{merge_entry, rd_model, rds_model, spec_merge_entry, EntryModel,
    ResultData};
use crate::utility::{tm_lookup, TextMap};
use crate::gi::artifacts::Artifact;
use crate::handbook::{Category, Language};
use crate::sr::relics::{spec_relic_rarity_number, RelicElement};
use crate::text::{is_prefix, strip_prefix};

verus! {

/// One output entry of the artifact category.
#[derive(Debug, PartialEq, Eq)]
pub struct ArtifactResult {
    pub id: i64,
    pub name: Vec<(Language, String)>,
    pub description: Vec<(Language, String)>,
    pub image: String,
    pub category: Category,
    pub rarity: i64,
    pub commands: CommandMap,
}

/// An artifact record normalized from either game's schema.
pub struct ArtifactData {
    pub id: i64,
    pub name: i64,
    pub description: i64,
    pub rarity: i64,
    pub icon: String,
    pub category: Category,
    pub commands: CommandMap,
}

/// How a normalized artifact record relates to a first-game row.
pub open spec fn spec_art_from_genshin(r: ArtifactData, a: Artifact) -> bool {
    &&& r.id == a.id
    &&& r.name == a.name_text_map_hash
    &&& r.description == a.desc_text_map_hash
    &&& r.rarity == a.rank_level
    &&& r.icon@ == a.icon@
    &&& r.category == Category::Artifacts
    &&& command_map_matches(
        r.commands,
        Category::Artifacts,
        (a.id as u32) as nat,
        "/give"@,
        GameType::GenshinImpact,
    )
}

/// How a normalized artifact record relates to a second-game row.
pub open spec fn spec_art_from_star_rail(r: ArtifactData, a: RelicElement) -> bool {
    &&& r.id == a.id
    &&& r.name == a.item_name.hash
    &&& r.description == a.item_bg_desc.hash
    &&& r.rarity == spec_relic_rarity_number(a.rarity)
    &&& ({
        let p = "SpriteOutput/ItemIcon/RelicIcons/"@;
        if is_prefix(p, a.item_icon_path@) {
            r.icon@ == a.item_icon_path@.skip(p.len() as int)
        } else {
            r.icon@ == a.item_icon_path@
        }
    })
    &&& r.category == Category::Relics
    &&& command_map_matches(
        r.commands,
        Category::Artifacts,
        (a.id as u32) as nat,
        "/give"@,
        GameType::HonkaiStarRail,
    )
}

impl ArtifactData {
    /// Normalizes a first-game artifact row.
    pub fn from_genshin(a: &Artifact) -> (r: Self)
        ensures
            spec_art_from_genshin(r, *a),
    {
        let commands = generate_command(
            Category::Artifacts,
            #[verifier::truncate] (a.id as u32),
            "/give",
            GameType::GenshinImpact,
        );
        ArtifactData {
            id: a.id,
            name: a.name_text_map_hash,
            description: a.desc_text_map_hash,
            rarity: a.rank_level,
            icon: a.icon.clone(),
            category: Category::Artifacts,
            commands,
        }
    }

    /// Normalizes a second-game relic row: the relic-icon folder
    /// prefix is stripped and the output category is the second
    /// game's own.
    pub fn from_star_rail(a: &RelicElement) -> (r: Self)
        ensures
            spec_art_from_star_rail(r, *a),
    {
        let commands = generate_command(
            Category::Artifacts,
            #[verifier::truncate] (a.id as u32),
            "/give",
            GameType::HonkaiStarRail,
        );
        let icon = strip_prefix(a.item_icon_path.as_str(), "SpriteOutput/ItemIcon/RelicIcons/");
        ArtifactData {
            id: a.id,
            name: a.item_name.hash,
            description: a.item_bg_desc.hash,
            rarity: a.rarity.to_number(),
            icon,
            category: Category::Relics,
            commands,
        }
    }
}

/// The fresh output entry for one artifact record.
pub open spec fn fresh_artifact_model(
    rec: ArtifactData,
    img: Seq<char>,
    lang: Language,
    name: Seq<char>,
    desc: Seq<char>,
) -> EntryModel {
    EntryModel {
        category: Category::Artifacts,
        id: rec.id as int,
        names: seq![(lang, name)],
        descs: seq![(lang, desc)],
        image: Some(img),
        out_category: rec.category,
        rarity: Some(rec.rarity as int),
        commands: cmd_map_model(rec.commands),
        scene_type: None,
        scene_name: None,
    }
}

/// What one artifact record does to the collection: its name and
/// description, empty when unresolved, are merged under identity
/// `(Artifacts, id)`.
pub open spec fn spec_artifact_step(
    s: Seq<EntryModel>,
    rec: ArtifactData,
    img: String,
    lang: Language,
    tm: Map<i64, String>,
) -> Seq<EntryModel> {
    let name = match tm_lookup(tm, rec.name) {
        Some(t) => t,
        None => Seq::empty(),
    };
    let desc = match tm_lookup(tm, rec.description) {
        Some(t) => t,
        None => Seq::empty(),
    };
    spec_merge_entry(s, fresh_artifact_model(rec, img@, lang, name, desc), lang, name, Some(desc))
}

/// The whole artifact pass over a record list, in order.
pub open spec fn spec_generate_artifacts(
    s: Seq<EntryModel>,
    recs: Seq<ArtifactData>,
    imgs: Seq<String>,
    lang: Language,
    tm: Map<i64, String>,
) -> Seq<EntryModel>
    decreases recs.len(),
{
    if recs.len() == 0 {
        s
    } else {
        spec_artifact_step(
            spec_generate_artifacts(s, recs.drop_last(), imgs.drop_last(), lang, tm),
            recs.last(),
            imgs.last(),
            lang,
            tm,
        )
    }
}

/// Runs the artifact pass: every record is merged, with empty text
/// substituted for unresolved hashes.  Returns the record count.
pub fn generate_artifacts(
    data: &Vec<ArtifactData>,
    images: &Vec<String>,
    lang: &Language,
    text_map: &TextMap,
    result: &mut Vec<ResultData>,
) -> (count: usize)
    requires
        images@.len() == data@.len(),
    ensures
        rds_model(final(result)@) == spec_generate_artifacts(
            rds_model(old(result)@),
            data@,
            images@,
            *lang,
            text_map@,
        ),
        count == data@.len(),
{
    let n = data.len();
    let mut i: usize = 0;
    proof {
        assert(data@.take(0) =~= Seq::<ArtifactData>::empty());
        assert(images@.take(0) =~= Seq::<String>::empty());
    }
    while i < n
        invariant
            i <= n,
            n == data@.len() == images@.len(),
            rds_model(result@) == spec_generate_artifacts(
                rds_model(old(result)@),
                data@.take(i as int),
                images@.take(i as int),
                *lang,
                text_map@,
            ),
        decreases n - i,
    {
        proof {
            assert(data@.take(i + 1).drop_last() =~= data@.take(i as int));
            assert(images@.take(i + 1).drop_last() =~= images@.take(i as int));
            assert(data@.take(i + 1).last() == data@[i as int]);
            assert(images@.take(i + 1).last() == images@[i as int]);
        }
        let rec = &data[i];
        let name = match text_map.get(rec.name) {
            Some(t) => t.clone(),
            None => String::new(),
        };
        let desc = match text_map.get(rec.description) {
            Some(t) => t.clone(),
            None => String::new(),
        };
        let mut names: Vec<(Language, String)> = Vec::new();
        names.push((*lang, name.clone()));
        let mut descs: Vec<(Language, String)> = Vec::new();
        descs.push((*lang, desc.clone()));
        let fresh = ResultData::Artifacts(
            ArtifactResult {
                id: rec.id,
                name: names,
                description: descs,
                image: images[i].clone(),
                category: rec.category,
                rarity: rec.rarity,
                commands: rec.commands.clone(),
            },
        );
        proof {
            assert(rd_model(fresh) =~~= fresh_artifact_model(
                data@[i as int],
                images@[i as int]@,
                *lang,
                name@,
                desc@,
            ));
        }
        merge_entry(result, fresh, *lang, name, Some(desc));
        i += 1;
    }
    proof {
        assert(data@.take(n as int) =~= data@);
        assert(images@.take(n as int) =~= images@);
    }
    n
}

} // verus!
