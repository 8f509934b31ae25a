//! The weapon category: normalized record and output entry.

use vstd::prelude::*;
use vstd::string::*;

use crate::commands::{cmd_map_model, command_map_matches, generate_command, CommandMap, GameType};
use crate::generate::output::{merge_entry, rd_model, rds_model, spec_merge_entry, EntryModel,
    ResultData};
use crate::utility::{tm_lookup, TextMap};
use crate::gi::weapons::Weapon;
use crate::handbook::{Category, Language};
use crate::sr::light_cones::{spec_cone_rarity_number, LightCones};
use crate::text::{is_prefix, strip_prefix};

verus! {

/// One output entry of the weapon category.  The resolved image URL
/// lives in the `icon` field here, as the output format has it.
#[derive(Debug, PartialEq, Eq)]
pub struct WeaponResult {
    pub id: i64,
    pub name: Vec<(Language, String)>,
    pub description: Vec<(Language, String)>,
    pub icon: String,
    pub rarity: i64,
    pub category: Category,
    pub commands: CommandMap,
}

/// A weapon record normalized from either game's schema.
pub struct WeaponsData {
    pub rarity: i64,
    pub id: i64,
    pub name: i64,
    pub description: Option<i64>,
    pub icon: String,
    pub category: Category,
    pub commands: CommandMap,
}

/// How a normalized weapon record relates to a first-game row.
pub open spec fn spec_weapon_from_genshin(r: WeaponsData, w: Weapon) -> bool {
    &&& r.rarity == w.rank_level
    &&& r.id == w.id
    &&& r.name == w.name_text_map_hash
    &&& r.description == Some(w.desc_text_map_hash)
    &&& r.icon@ == w.icon@
    &&& r.category == Category::Weapons
    &&& command_map_matches(
        r.commands,
        Category::Weapons,
        (w.id as u32) as nat,
        "/give"@,
        GameType::GenshinImpact,
    )
}

/// How a normalized weapon record relates to a second-game row.
pub open spec fn spec_weapon_from_star_rail(r: WeaponsData, w: LightCones) -> bool {
    &&& r.rarity == spec_cone_rarity_number(w.rarity)
    &&& r.id == w.equipment_id
    &&& r.name == w.equipment_name.hash
    &&& r.description is None
    &&& ({
        let p = "SpriteOutput/LightConeMaxFigures/"@;
        if is_prefix(p, w.image_path@) {
            r.icon@ == w.image_path@.skip(p.len() as int)
        } else {
            r.icon@ == w.image_path@
        }
    })
    &&& r.category == Category::LightCones
    &&& command_map_matches(
        r.commands,
        Category::Weapons,
        (w.equipment_id as u32) as nat,
        "/give"@,
        GameType::HonkaiStarRail,
    )
}

impl WeaponsData {
    /// Normalizes a first-game weapon row.
    pub fn from_genshin(w: &Weapon) -> (r: Self)
        ensures
            spec_weapon_from_genshin(r, *w),
    {
        let commands = generate_command(
            Category::Weapons,
            #[verifier::truncate] (w.id as u32),
            "/give",
            GameType::GenshinImpact,
        );
        WeaponsData {
            rarity: w.rank_level,
            id: w.id,
            name: w.name_text_map_hash,
            description: Some(w.desc_text_map_hash),
            icon: w.icon.clone(),
            category: Category::Weapons,
            commands,
        }
    }

    /// Normalizes a second-game light-cone row: the figure folder
    /// prefix is stripped and the output category is the second
    /// game's own.
    pub fn from_star_rail(w: &LightCones) -> (r: Self)
        ensures
            spec_weapon_from_star_rail(r, *w),
    {
        let commands = generate_command(
            Category::Weapons,
            #[verifier::truncate] (w.equipment_id as u32),
            "/give",
            GameType::HonkaiStarRail,
        );
        let icon = strip_prefix(w.image_path.as_str(), "SpriteOutput/LightConeMaxFigures/");
        WeaponsData {
            rarity: w.rarity.to_number(),
            id: w.equipment_id,
            name: w.equipment_name.hash,
            description: None,
            icon,
            category: Category::LightCones,
            commands,
        }
    }
}

/// The fresh output entry for one weapon record.
pub open spec fn fresh_weapon_model(
    rec: WeaponsData,
    img: Seq<char>,
    lang: Language,
    name: Seq<char>,
    desc: Seq<char>,
) -> EntryModel {
    EntryModel {
        category: Category::Weapons,
        id: rec.id as int,
        names: seq![(lang, name)],
        descs: seq![(lang, desc)],
        image: Some(img),
        out_category: rec.category,
        rarity: Some(rec.rarity as int),
        commands: cmd_map_model(rec.commands),
        scene_type: None,
        scene_name: None,
    }
}

/// What one weapon record does to the collection: its name and
/// description, empty when absent or unresolved, are merged under
/// identity `(Weapons, id)`.
pub open spec fn spec_weapon_step(
    s: Seq<EntryModel>,
    rec: WeaponsData,
    img: String,
    lang: Language,
    tm: Map<i64, String>,
) -> Seq<EntryModel> {
    let name = match tm_lookup(tm, rec.name) {
        Some(t) => t,
        None => Seq::empty(),
    };
    let desc = match rec.description {
        Some(h) => match tm_lookup(tm, h) {
            Some(t) => t,
            None => Seq::empty(),
        },
        None => Seq::empty(),
    };
    spec_merge_entry(s, fresh_weapon_model(rec, img@, lang, name, desc), lang, name, Some(desc))
}

/// The whole weapon pass over a record list, in order.
pub open spec fn spec_generate_weapons(
    s: Seq<EntryModel>,
    recs: Seq<WeaponsData>,
    imgs: Seq<String>,
    lang: Language,
    tm: Map<i64, String>,
) -> Seq<EntryModel>
    decreases recs.len(),
{
    if recs.len() == 0 {
        s
    } else {
        spec_weapon_step(
            spec_generate_weapons(s, recs.drop_last(), imgs.drop_last(), lang, tm),
            recs.last(),
            imgs.last(),
            lang,
            tm,
        )
    }
}

/// Runs the weapon pass: every record is merged, with empty text
/// substituted for unresolved hashes.  Returns the record count.
pub fn generate_weapons(
    data: &Vec<WeaponsData>,
    images: &Vec<String>,
    lang: &Language,
    text_map: &TextMap,
    result: &mut Vec<ResultData>,
) -> (count: usize)
    requires
        images@.len() == data@.len(),
    ensures
        rds_model(final(result)@) == spec_generate_weapons(
            rds_model(old(result)@),
            data@,
            images@,
            *lang,
            text_map@,
        ),
        count == data@.len(),
{
    let n = data.len();
    let mut i: usize = 0;
    proof {
        assert(data@.take(0) =~= Seq::<WeaponsData>::empty());
        assert(images@.take(0) =~= Seq::<String>::empty());
    }
    while i < n
        invariant
            i <= n,
            n == data@.len() == images@.len(),
            rds_model(result@) == spec_generate_weapons(
                rds_model(old(result)@),
                data@.take(i as int),
                images@.take(i as int),
                *lang,
                text_map@,
            ),
        decreases n - i,
    {
        proof {
            assert(data@.take(i + 1).drop_last() =~= data@.take(i as int));
            assert(images@.take(i + 1).drop_last() =~= images@.take(i as int));
            assert(data@.take(i + 1).last() == data@[i as int]);
            assert(images@.take(i + 1).last() == images@[i as int]);
        }
        let rec = &data[i];
        let name = match text_map.get(rec.name) {
            Some(t) => t.clone(),
            None => String::new(),
        };
        let desc = match rec.description {
            Some(h) => match text_map.get(h) {
                Some(t) => t.clone(),
                None => String::new(),
            },
            None => String::new(),
        };
        let mut names: Vec<(Language, String)> = Vec::new();
        names.push((*lang, name.clone()));
        let mut descs: Vec<(Language, String)> = Vec::new();
        descs.push((*lang, desc.clone()));
        let fresh = ResultData::Weapons(
            WeaponResult {
                id: rec.id,
                name: names,
                description: descs,
                icon: images[i].clone(),
                rarity: rec.rarity,
                category: rec.category,
                commands: rec.commands.clone(),
            },
        );
        proof {
            assert(rd_model(fresh) =~~= fresh_weapon_model(
                data@[i as int],
                images@[i as int]@,
                *lang,
                name@,
                desc@,
            ));
        }
        merge_entry(result, fresh, *lang, name, Some(desc));
        i += 1;
    }
    proof {
        assert(data@.take(n as int) =~= data@);
        assert(images@.take(n as int) =~= images@);
    }
    n
}

} // verus!
