//! The monster category: normalized record and output entry.  The
//! first game's table joins against a description table through an
//! optional foreign key; an unresolved key, like an unresolved name
//! hash, gives an empty name rather than failing the record.

use vstd::prelude::*;
use vstd::string::*;

use crate::commands::{cmd_map_model, command_map_matches, generate_command, CommandMap, GameType};
use crate::generate::output::{merge_entry, rd_model, rds_model, spec_merge_entry, EntryModel,
    ResultData};
use crate::utility::{tm_lookup, TextMap};
use crate::gi::monsters::{Monster as GIMonster, MonsterDescribeElement};
use crate::handbook::{Category, Language};
use crate::sr::monster::Monster as SRMonster;

verus! {

/// One output entry of the monster category.
#[derive(Debug, PartialEq, Eq)]
pub struct MonstersResult {
    pub id: i64,
    pub name: Vec<(Language, String)>,
    pub description: Vec<(Language, String)>,
    pub image: Option<String>,
    pub category: Category,
    pub commands: CommandMap,
}

/// A monster record normalized from either game's schema.
pub struct MonsterData {
    pub id: i64,
    pub name: i64,
    pub description: Option<i64>,
    pub icon: Option<String>,
    pub category: Category,
    pub commands: CommandMap,
}

/// How a normalized monster record relates to a first-game row and
/// its resolved description row, if any.
pub open spec fn spec_monster_from_genshin(
    r: MonsterData,
    m: GIMonster,
    d: Option<MonsterDescribeElement>,
) -> bool {
    &&& r.id == m.id
    &&& r.name == (match d {
        Some(e) => e.name_text_map_hash,
        None => 0,
    })
    &&& r.description is None
    &&& (match d {
        Some(e) => r.icon matches Some(i) && i@ == e.icon@,
        None => r.icon is None,
    })
    &&& r.category == Category::Monsters
    &&& command_map_matches(
        r.commands,
        Category::Monsters,
        (m.id as u32) as nat,
        "/spawn"@,
        GameType::GenshinImpact,
    )
}

/// How a normalized monster record relates to a second-game row.
pub open spec fn spec_monster_from_star_rail(r: MonsterData, m: SRMonster) -> bool {
    &&& r.id == m.monster_id
    &&& r.name == m.monster_name.hash
    &&& r.description == Some(m.monster_introduction.hash)
    &&& r.icon is None
    &&& r.category == Category::Monsters
    &&& command_map_matches(
        r.commands,
        Category::Monsters,
        (m.monster_id as u32) as nat,
        "/spawn"@,
        GameType::HonkaiStarRail,
    )
}

impl MonsterData {
    /// Normalizes a first-game monster row together with its resolved
    /// description row, if the foreign key found one; without it the
    /// name hash is zero, which no localization resolves.
    pub fn from_genshin(m: &GIMonster, d: Option<&MonsterDescribeElement>) -> (r: Self)
        ensures
            spec_monster_from_genshin(
                r,
                *m,
                match d {
                    Some(e) => Some(*e),
                    None => None,
                },
            ),
    {
        let commands = generate_command(
            Category::Monsters,
            #[verifier::truncate] (m.id as u32),
            "/spawn",
            GameType::GenshinImpact,
        );
        let (name, icon) = match d {
            Some(e) => (e.name_text_map_hash, Some(e.icon.clone())),
            None => (0i64, None),
        };
        MonsterData {
            id: m.id,
            name,
            description: None,
            icon,
            category: Category::Monsters,
            commands,
        }
    }

    /// Normalizes a second-game monster row.
    pub fn from_star_rail(m: &SRMonster) -> (r: Self)
        ensures
            spec_monster_from_star_rail(r, *m),
    {
        let commands = generate_command(
            Category::Monsters,
            #[verifier::truncate] (m.monster_id as u32),
            "/spawn",
            GameType::HonkaiStarRail,
        );
        MonsterData {
            id: m.monster_id,
            name: m.monster_name.hash,
            description: Some(m.monster_introduction.hash),
            icon: None,
            category: Category::Monsters,
            commands,
        }
    }
}

/// The fresh output entry for one monster record: its image is
/// resolved only where the record carried an icon.
pub open spec fn fresh_monster_model(
    rec: MonsterData,
    img: Option<String>,
    lang: Language,
    name: Seq<char>,
    desc: Option<Seq<char>>,
) -> EntryModel {
    EntryModel {
        category: Category::Monsters,
        id: rec.id as int,
        names: seq![(lang, name)],
        descs: match desc {
            Some(d) => seq![(lang, d)],
            None => Seq::empty(),
        },
        image: match img {
            Some(s) => Some(s@),
            None => None,
        },
        out_category: rec.category,
        rarity: None,
        commands: cmd_map_model(rec.commands),
        scene_type: None,
        scene_name: None,
    }
}

/// What one monster record does to the collection: its name, empty
/// when the hash does not resolve, is merged under identity
/// `(Monsters, id)`; a description is inserted only when its hash
/// resolves.  No record is skipped.
pub open spec fn spec_monster_step(
    s: Seq<EntryModel>,
    rec: MonsterData,
    img: Option<String>,
    lang: Language,
    tm: Map<i64, String>,
) -> Seq<EntryModel> {
    let name = match tm_lookup(tm, rec.name) {
        Some(t) => t,
        None => Seq::empty(),
    };
    let desc = match rec.description {
        Some(h) => tm_lookup(tm, h),
        None => None,
    };
    spec_merge_entry(s, fresh_monster_model(rec, img, lang, name, desc), lang, name, desc)
}

/// The whole monster pass over a record list, in order.
pub open spec fn spec_generate_monsters(
    s: Seq<EntryModel>,
    recs: Seq<MonsterData>,
    imgs: Seq<Option<String>>,
    lang: Language,
    tm: Map<i64, String>,
) -> Seq<EntryModel>
    decreases recs.len(),
{
    if recs.len() == 0 {
        s
    } else {
        spec_monster_step(
            spec_generate_monsters(s, recs.drop_last(), imgs.drop_last(), lang, tm),
            recs.last(),
            imgs.last(),
            lang,
            tm,
        )
    }
}

/// Runs the monster pass: every record is merged, with an empty name
/// substituted for an unresolved hash; the image list is aligned with
/// the records and holds a URL exactly where the record carried an
/// icon.  Returns the record count.
pub fn generate_monsters(
    data: &Vec<MonsterData>,
    images: &Vec<Option<String>>,
    lang: &Language,
    text_map: &TextMap,
    result: &mut Vec<ResultData>,
) -> (count: usize)
    requires
        images@.len() == data@.len(),
    ensures
        rds_model(final(result)@) == spec_generate_monsters(
            rds_model(old(result)@),
            data@,
            images@,
            *lang,
            text_map@,
        ),
        count == data@.len(),
{
    let n = data.len();
    let mut i: usize = 0;
    proof {
        assert(data@.take(0) =~= Seq::<MonsterData>::empty());
        assert(images@.take(0) =~= Seq::<Option<String>>::empty());
    }
    while i < n
        invariant
            i <= n,
            n == data@.len() == images@.len(),
            rds_model(result@) == spec_generate_monsters(
                rds_model(old(result)@),
                data@.take(i as int),
                images@.take(i as int),
                *lang,
                text_map@,
            ),
        decreases n - i,
    {
        proof {
            assert(data@.take(i + 1).drop_last() =~= data@.take(i as int));
            assert(images@.take(i + 1).drop_last() =~= images@.take(i as int));
            assert(data@.take(i + 1).last() == data@[i as int]);
            assert(images@.take(i + 1).last() == images@[i as int]);
        }
        let rec = &data[i];
        let name = match text_map.get(rec.name) {
            Some(t) => t.clone(),
            None => String::new(),
        };
        let desc: Option<String> = match rec.description {
            Some(h) => match text_map.get(h) {
                Some(t) => Some(t.clone()),
                None => None,
            },
            None => None,
        };
        let img: Option<String> = match &images[i] {
            Some(u) => Some(u.clone()),
            None => None,
        };
        let mut names: Vec<(Language, String)> = Vec::new();
        names.push((*lang, name.clone()));
        let mut descs: Vec<(Language, String)> = Vec::new();
        match &desc {
            Some(d) => {
                descs.push((*lang, d.clone()));
            },
            None => {},
        }
        let fresh = ResultData::Monsters(
            MonstersResult {
                id: rec.id,
                name: names,
                description: descs,
                image: img,
                category: rec.category,
                commands: rec.commands.clone(),
            },
        );
        proof {
            assert(rd_model(fresh) =~~= fresh_monster_model(
                data@[i as int],
                images@[i as int],
                *lang,
                name@,
                crate::generate::output::spec_opt_text(desc),
            ));
        }
        merge_entry(result, fresh, *lang, name, desc);
        i += 1;
    }
    proof {
        assert(data@.take(n as int) =~= data@);
        assert(images@.take(n as int) =~= images@);
    }
    n
}

} // verus!
