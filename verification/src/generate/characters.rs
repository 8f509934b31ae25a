//! The character category: normalized record and output entry.

use vstd::prelude::*;
use vstd::string::*;

use crate::commands::{cmd_map_model, command_map_matches, generate_command, CommandMap, GameType};
use crate::generate::output::{has_entry, merge_entry, rd_model, rds_model, spec_merge_entry,
    EntryModel, ResultData};
use crate::gi::characters::{spec_quality_rarity, Characters as CharactersGI};
use crate::handbook::{Category, Language};
use crate::sr::characters::{spec_avatar_rarity_number, CharacterList as CharacterListSR};
use crate::text::{is_prefix, strip_prefix};
use crate::utility::{tm_lookup, TextMap};

verus! {

/// One output entry of the character category.
#[derive(Debug, PartialEq, Eq)]
pub struct CharacterResult {
    pub id: i64,
    pub name: Vec<(Language, String)>,
    pub description: Vec<(Language, String)>,
    pub image: String,
    pub category: Category,
    pub rarity: Option<u8>,
    pub commands: CommandMap,
}

/// A character record normalized from either game's schema.
pub struct CharacterData {
    pub id: i64,
    pub name: i64,
    pub description: Option<i64>,
    pub rarity: u8,
    pub icon: String,
    pub category: Category,
    pub commands: CommandMap,
}

/// How a normalized character record relates to a first-game row.
pub open spec fn spec_char_from_genshin(r: CharacterData, c: CharactersGI) -> bool {
    &&& r.id == c.id
    &&& r.name == c.name_text_map_hash
    &&& r.description == Some(c.desc_text_map_hash)
    &&& r.rarity == spec_quality_rarity(c.quality_type)
    &&& r.icon@ == c.icon_name@
    &&& r.category == Category::Characters
    &&& command_map_matches(
        r.commands,
        Category::Characters,
        (c.id as u32) as nat,
        "/give"@,
        GameType::GenshinImpact,
    )
}

/// How a normalized character record relates to a second-game row.
pub open spec fn spec_char_from_star_rail(r: CharacterData, c: CharacterListSR) -> bool {
    &&& r.id == c.avatar_id
    &&& r.name == c.avatar_name.hash
    &&& r.description is None
    &&& r.rarity == spec_avatar_rarity_number(c.rarity)
    &&& ({
        let p = "SpriteOutput/AvatarIcon/Avatar/"@;
        if is_prefix(p, c.default_avatar_head_icon_path@) {
            r.icon@ == c.default_avatar_head_icon_path@.skip(p.len() as int)
        } else {
            r.icon@ == c.default_avatar_head_icon_path@
        }
    })
    &&& r.category == Category::Characters
    &&& command_map_matches(
        r.commands,
        Category::Characters,
        (c.avatar_id as u32) as nat,
        "/give"@,
        GameType::HonkaiStarRail,
    )
}

impl CharacterData {
    /// Normalizes a first-game character row: quality tier becomes the
    /// numeric rarity, and the give-commands are synthesized once.
    pub fn from_genshin(c: &CharactersGI) -> (r: Self)
        ensures
            spec_char_from_genshin(r, *c),
    {
        let commands = generate_command(
            Category::Characters,
            #[verifier::truncate] (c.id as u32),
            "/give",
            GameType::GenshinImpact,
        );
        CharacterData {
            id: c.id,
            name: c.name_text_map_hash,
            description: Some(c.desc_text_map_hash),
            rarity: c.quality_type.to_rarity(),
            icon: c.icon_name.clone(),
            category: Category::Characters,
            commands,
        }
    }

    /// Normalizes a second-game avatar row: the sprite-sheet folder
    /// prefix is stripped from the icon path.
    pub fn from_star_rail(c: &CharacterListSR) -> (r: Self)
        ensures
            spec_char_from_star_rail(r, *c),
    {
        let commands = generate_command(
            Category::Characters,
            #[verifier::truncate] (c.avatar_id as u32),
            "/give",
            GameType::HonkaiStarRail,
        );
        let icon = strip_prefix(
            c.default_avatar_head_icon_path.as_str(),
            "SpriteOutput/AvatarIcon/Avatar/",
        );
        CharacterData {
            id: c.avatar_id,
            name: c.avatar_name.hash,
            description: None,
            rarity: c.rarity.to_number(),
            icon,
            category: Category::Characters,
            commands,
        }
    }
}

/// Whether a character id is excluded from the output: the known
/// placeholder id, and everything above the template-entry ceiling.
pub open spec fn spec_char_excluded(id: i64) -> bool {
    id == 10000001 || id > 11000000
}

/// The fresh output entry for one character record: the current
/// language's texts, the resolved image, and the record's own rarity,
/// category and commands.
pub open spec fn fresh_char_model(
    rec: CharacterData,
    img: Seq<char>,
    lang: Language,
    name: Seq<char>,
    desc: Option<Seq<char>>,
) -> EntryModel {
    EntryModel {
        category: Category::Characters,
        id: rec.id as int,
        names: seq![(lang, name)],
        descs: match desc {
            Some(d) => seq![(lang, d)],
            None => Seq::empty(),
        },
        image: Some(img),
        out_category: rec.category,
        rarity: Some(rec.rarity as int),
        commands: cmd_map_model(rec.commands),
        scene_type: None,
        scene_name: None,
    }
}

/// What one character record does to the collection: an excluded id,
/// or a name that resolves to nothing or to the empty string, leaves
/// it untouched; otherwise the record's texts are merged under
/// identity `(Characters, id)`.  A description that resolves to
/// nothing is simply not inserted.
pub open spec fn spec_char_step(
    s: Seq<EntryModel>,
    rec: CharacterData,
    img: String,
    lang: Language,
    tm: Map<i64, String>,
) -> Seq<EntryModel> {
    if spec_char_excluded(rec.id) {
        s
    } else {
        let name = match tm_lookup(tm, rec.name) {
            Some(t) => t,
            None => Seq::empty(),
        };
        if name.len() == 0 {
            s
        } else {
            let dh = match rec.description {
                Some(h) => h,
                None => 0,
            };
            let dtext = match tm_lookup(tm, dh) {
                Some(t) => t,
                None => Seq::empty(),
            };
            let desc = if dtext.len() == 0 {
                Option::<Seq<char>>::None
            } else {
                Some(dtext)
            };
            spec_merge_entry(s, fresh_char_model(rec, img@, lang, name, desc), lang, name, desc)
        }
    }
}

/// The whole character pass over a record list, in order.
pub open spec fn spec_generate_characters(
    s: Seq<EntryModel>,
    recs: Seq<CharacterData>,
    imgs: Seq<String>,
    lang: Language,
    tm: Map<i64, String>,
) -> Seq<EntryModel>
    decreases recs.len(),
{
    if recs.len() == 0 {
        s
    } else {
        spec_char_step(
            spec_generate_characters(s, recs.drop_last(), imgs.drop_last(), lang, tm),
            recs.last(),
            imgs.last(),
            lang,
            tm,
        )
    }
}

/// How many records of a list pass the id filter.
pub open spec fn spec_char_count(recs: Seq<CharacterData>) -> nat
    decreases recs.len(),
{
    if recs.len() == 0 {
        0
    } else {
        spec_char_count(recs.drop_last()) + (if spec_char_excluded(recs.last().id) {
            0nat
        } else {
            1nat
        })
    }
}

/// Runs the character pass: filters out excluded ids and records
/// without a non-empty resolved name, and merges each surviving
/// record into the collection, the image list aligned with the
/// records.  Returns the count of id-filter-passing records.
pub fn generate_character(
    data: &Vec<CharacterData>,
    images: &Vec<String>,
    lang: &Language,
    text_map: &TextMap,
    result: &mut Vec<ResultData>,
) -> (count: usize)
    requires
        images@.len() == data@.len(),
    ensures
        rds_model(final(result)@) == spec_generate_characters(
            rds_model(old(result)@),
            data@,
            images@,
            *lang,
            text_map@,
        ),
        count == spec_char_count(data@),
{
    let n = data.len();
    let mut count: usize = 0;
    let mut i: usize = 0;
    proof {
        assert(data@.take(0) =~= Seq::<CharacterData>::empty());
        assert(images@.take(0) =~= Seq::<String>::empty());
    }
    while i < n
        invariant
            i <= n,
            n == data@.len() == images@.len(),
            count <= i,
            rds_model(result@) == spec_generate_characters(
                rds_model(old(result)@),
                data@.take(i as int),
                images@.take(i as int),
                *lang,
                text_map@,
            ),
            count == spec_char_count(data@.take(i as int)),
        decreases n - i,
    {
        proof {
            assert(data@.take(i + 1).drop_last() =~= data@.take(i as int));
            assert(images@.take(i + 1).drop_last() =~= images@.take(i as int));
            assert(data@.take(i + 1).last() == data@[i as int]);
            assert(images@.take(i + 1).last() == images@[i as int]);
        }
        let rec = &data[i];
        if !(rec.id == 10000001 || rec.id > 11000000) {
            count += 1;
            let name = match text_map.get(rec.name) {
                Some(name_ref) => name_ref.clone(),
                None => String::new(),
            };
            if !name.as_str().is_empty() {
                {
                    let dh: i64 = match rec.description {
                        Some(h) => h,
                        None => 0,
                    };
                    let dtext = match text_map.get(dh) {
                        Some(t) => t.clone(),
                        None => String::new(),
                    };
                    let desc: Option<String> = if dtext.as_str().is_empty() {
                        None
                    } else {
                        Some(dtext)
                    };
                    let mut names: Vec<(Language, String)> = Vec::new();
                    names.push((*lang, name.clone()));
                    let mut descs: Vec<(Language, String)> = Vec::new();
                    match &desc {
                        Some(d) => {
                            descs.push((*lang, d.clone()));
                        },
                        None => {},
                    }
                    let fresh = ResultData::Characters(
                        CharacterResult {
                            id: rec.id,
                            name: names,
                            description: descs,
                            image: images[i].clone(),
                            category: rec.category,
                            rarity: Some(rec.rarity),
                            commands: rec.commands.clone(),
                        },
                    );
                    proof {
                        assert(rd_model(fresh) =~~= fresh_char_model(
                            data@[i as int],
                            images@[i as int]@,
                            *lang,
                            name@,
                            crate::generate::output::spec_opt_text(desc),
                        ));
                    }
                    merge_entry(result, fresh, *lang, name, desc);
                }
            }
        }
        i += 1;
    }
    proof {
        assert(data@.take(n as int) =~= data@);
        assert(images@.take(n as int) =~= images@);
    }
    count
}

/// Filter exclusion: an excluded character id never gains an entry,
/// whatever the records, images and localization resolve to.
pub proof fn lemma_filter_exclusion(
    s: Seq<EntryModel>,
    recs: Seq<CharacterData>,
    imgs: Seq<String>,
    lang: Language,
    tm: Map<i64, String>,
    id: i64,
)
    requires
        spec_char_excluded(id),
        !has_entry(s, Category::Characters, id as int),
    ensures
        !has_entry(
            spec_generate_characters(s, recs, imgs, lang, tm),
            Category::Characters,
            id as int,
        ),
    decreases recs.len(),
{
    if recs.len() > 0 {
        lemma_filter_exclusion(s, recs.drop_last(), imgs.drop_last(), lang, tm, id);
        let prev = spec_generate_characters(s, recs.drop_last(), imgs.drop_last(), lang, tm);
        let rec = recs.last();
        if !spec_char_excluded(rec.id) {
            let name = match tm_lookup(tm, rec.name) {
                Some(t) => t,
                None => Seq::<char>::empty(),
            };
            if name.len() > 0 {
                let dh = match rec.description {
                    Some(h) => h,
                    None => 0,
                };
                let dtext = match tm_lookup(tm, dh) {
                    Some(t) => t,
                    None => Seq::<char>::empty(),
                };
                let desc = if dtext.len() == 0 {
                    Option::<Seq<char>>::None
                } else {
                    Some(dtext)
                };
                let fresh = fresh_char_model(rec, imgs.last()@, lang, name, desc);
                crate::generate::output::lemma_merge_identities(
                    prev,
                    fresh,
                    lang,
                    name,
                    desc,
                    Category::Characters,
                    id as int,
                );
            }
        }
    }
}

} // verus!
