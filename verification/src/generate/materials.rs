//! The material category: normalized record and output entry.

use vstd::prelude::*;
use vstd::string::*;

use crate::commands::{cmd_map_model, command_map_matches, generate_command, CommandMap, GameType};
use crate::generate::output::{has_entry, lemma_cross_language_union, lemma_lmap_insert_idempotent,
    lemma_lmap_insert_keys, lemma_merge_identities, lemma_merge_idempotent,
    lemma_merge_preserves_unique, lemma_merge_shape, lmap_has, merge_entry, model_insert_lang,
    rd_model, rds_model, spec_lmap_insert, spec_merge_entry, unique_ids, EntryModel, ResultData};
use crate::gi::materials::Material;
use crate::utility::{tm_lookup, TextMap};
use crate::handbook::{Category, Language};
use crate::sr::items::{spec_item_rarity_number, Items};
use crate::text::{is_prefix, strip_prefix};

verus! {

/// One output entry of the material category.
#[derive(Debug, PartialEq, Eq)]
pub struct MaterialsResult {
    pub id: i64,
    pub name: Vec<(Language, String)>,
    pub description: Vec<(Language, String)>,
    pub image: String,
    pub category: Category,
    pub rarity: Option<i64>,
    pub commands: CommandMap,
}

/// A material record normalized from either game's schema.
pub struct MaterialData {
    pub rarity: Option<i64>,
    pub id: i64,
    pub name: i64,
    pub description: i64,
    pub icon: String,
    pub category: Category,
    pub commands: CommandMap,
}

/// How a normalized material record relates to a first-game row.
pub open spec fn spec_mat_from_genshin(r: MaterialData, m: Material) -> bool {
    &&& r.rarity == m.rank_level
    &&& r.id == m.id
    &&& r.name == m.name_text_map_hash
    &&& r.description == m.desc_text_map_hash
    &&& r.icon@ == m.icon@
    &&& r.category == Category::Materials
    &&& command_map_matches(
        r.commands,
        Category::Materials,
        (m.id as u32) as nat,
        "/give"@,
        GameType::GenshinImpact,
    )
}

/// How a normalized material record relates to a second-game row.
pub open spec fn spec_mat_from_star_rail(r: MaterialData, m: Items) -> bool {
    &&& r.rarity == Some(spec_item_rarity_number(m.rarity))
    &&& r.id == m.id
    &&& r.name == m.item_name.hash
    &&& r.description == m.item_desc.hash
    &&& ({
        let p = "SpriteOutput/ItemIcon/"@;
        if is_prefix(p, m.item_icon_path@) {
            r.icon@ == m.item_icon_path@.skip(p.len() as int)
        } else {
            r.icon@ == m.item_icon_path@
        }
    })
    &&& r.category == Category::Items
    &&& command_map_matches(
        r.commands,
        Category::Materials,
        (m.id as u32) as nat,
        "/give"@,
        GameType::HonkaiStarRail,
    )
}

impl MaterialData {
    /// Normalizes a first-game material row.
    pub fn from_genshin(m: &Material) -> (r: Self)
        ensures
            spec_mat_from_genshin(r, *m),
    {
        let commands = generate_command(
            Category::Materials,
            #[verifier::truncate] (m.id as u32),
            "/give",
            GameType::GenshinImpact,
        );
        MaterialData {
            rarity: m.rank_level,
            id: m.id,
            name: m.name_text_map_hash,
            description: m.desc_text_map_hash,
            icon: m.icon.clone(),
            category: Category::Materials,
            commands,
        }
    }

    /// Normalizes a second-game item row: the item-icon folder prefix
    /// is stripped and the output category is the second game's own.
    pub fn from_star_rail(m: &Items) -> (r: Self)
        ensures
            spec_mat_from_star_rail(r, *m),
    {
        let commands = generate_command(
            Category::Materials,
            #[verifier::truncate] (m.id as u32),
            "/give",
            GameType::HonkaiStarRail,
        );
        let icon = strip_prefix(m.item_icon_path.as_str(), "SpriteOutput/ItemIcon/");
        MaterialData {
            rarity: Some(m.rarity.to_number()),
            id: m.id,
            name: m.item_name.hash,
            description: m.item_desc.hash,
            icon,
            category: Category::Items,
            commands,
        }
    }
}

/// The fresh output entry for one material record.
pub open spec fn fresh_mat_model(
    rec: MaterialData,
    img: Seq<char>,
    lang: Language,
    name: Seq<char>,
    desc: Seq<char>,
) -> EntryModel {
    EntryModel {
        category: Category::Materials,
        id: rec.id as int,
        names: seq![(lang, name)],
        descs: seq![(lang, desc)],
        image: Some(img),
        out_category: rec.category,
        rarity: match rec.rarity {
            Some(x) => Some(x as int),
            None => None,
        },
        commands: cmd_map_model(rec.commands),
        scene_type: None,
        scene_name: None,
    }
}

/// The name a material record resolves to, empty on a miss.
pub open spec fn spec_mat_name(rec: MaterialData, tm: Map<i64, String>) -> Seq<char> {
    match tm_lookup(tm, rec.name) {
        Some(t) => t,
        None => Seq::empty(),
    }
}

/// The description a material record resolves to, empty on a miss.
pub open spec fn spec_mat_desc(rec: MaterialData, tm: Map<i64, String>) -> Seq<char> {
    match tm_lookup(tm, rec.description) {
        Some(t) => t,
        None => Seq::empty(),
    }
}

/// What one material record does to the collection: its name and
/// description, empty when unresolved, are merged under identity
/// `(Materials, id)`; no record is skipped.
pub open spec fn spec_mat_step(
    s: Seq<EntryModel>,
    rec: MaterialData,
    img: String,
    lang: Language,
    tm: Map<i64, String>,
) -> Seq<EntryModel> {
    let name = spec_mat_name(rec, tm);
    let desc = spec_mat_desc(rec, tm);
    spec_merge_entry(s, fresh_mat_model(rec, img@, lang, name, desc), lang, name, Some(desc))
}

/// The whole material pass over a record list, in order.
pub open spec fn spec_generate_materials(
    s: Seq<EntryModel>,
    recs: Seq<MaterialData>,
    imgs: Seq<String>,
    lang: Language,
    tm: Map<i64, String>,
) -> Seq<EntryModel>
    decreases recs.len(),
{
    if recs.len() == 0 {
        s
    } else {
        spec_mat_step(
            spec_generate_materials(s, recs.drop_last(), imgs.drop_last(), lang, tm),
            recs.last(),
            imgs.last(),
            lang,
            tm,
        )
    }
}

/// Runs the material pass: every record is merged, with empty text
/// substituted for unresolved hashes.  Returns the record count.
pub fn generate_materials(
    data: &Vec<MaterialData>,
    images: &Vec<String>,
    lang: &Language,
    text_map: &TextMap,
    result: &mut Vec<ResultData>,
) -> (count: usize)
    requires
        images@.len() == data@.len(),
    ensures
        rds_model(final(result)@) == spec_generate_materials(
            rds_model(old(result)@),
            data@,
            images@,
            *lang,
            text_map@,
        ),
        count == data@.len(),
{
    let n = data.len();
    let mut i: usize = 0;
    proof {
        assert(data@.take(0) =~= Seq::<MaterialData>::empty());
        assert(images@.take(0) =~= Seq::<String>::empty());
    }
    while i < n
        invariant
            i <= n,
            n == data@.len() == images@.len(),
            rds_model(result@) == spec_generate_materials(
                rds_model(old(result)@),
                data@.take(i as int),
                images@.take(i as int),
                *lang,
                text_map@,
            ),
        decreases n - i,
    {
        proof {
            assert(data@.take(i + 1).drop_last() =~= data@.take(i as int));
            assert(images@.take(i + 1).drop_last() =~= images@.take(i as int));
            assert(data@.take(i + 1).last() == data@[i as int]);
            assert(images@.take(i + 1).last() == images@[i as int]);
        }
        let rec = &data[i];
        let name = match text_map.get(rec.name) {
            Some(t) => t.clone(),
            None => String::new(),
        };
        let desc = match text_map.get(rec.description) {
            Some(t) => t.clone(),
            None => String::new(),
        };
        let mut names: Vec<(Language, String)> = Vec::new();
        names.push((*lang, name.clone()));
        let mut descs: Vec<(Language, String)> = Vec::new();
        descs.push((*lang, desc.clone()));
        let fresh = ResultData::Materials(
            MaterialsResult {
                id: rec.id,
                name: names,
                description: descs,
                image: images[i].clone(),
                category: rec.category,
                rarity: rec.rarity,
                commands: rec.commands.clone(),
            },
        );
        proof {
            assert(rd_model(fresh) =~~= fresh_mat_model(
                data@[i as int],
                images@[i as int]@,
                *lang,
                name@,
                desc@,
            ));
        }
        merge_entry(result, fresh, *lang, name, Some(desc));
        i += 1;
    }
    proof {
        assert(data@.take(n as int) =~= data@);
        assert(images@.take(n as int) =~= images@);
    }
    n
}

/// Merge idempotence at the category level: processing one material
/// record twice for the same language and table leaves exactly what
/// one pass leaves.
pub proof fn lemma_material_step_idempotent(
    s: Seq<EntryModel>,
    rec: MaterialData,
    img: String,
    lang: Language,
    tm: Map<i64, String>,
)
    ensures
        spec_mat_step(spec_mat_step(s, rec, img, lang, tm), rec, img, lang, tm) == spec_mat_step(
            s,
            rec,
            img,
            lang,
            tm,
        ),
{
    let name = spec_mat_name(rec, tm);
    let desc = spec_mat_desc(rec, tm);
    let fresh = fresh_mat_model(rec, img@, lang, name, desc);
    assert(model_insert_lang(fresh, lang, name, Some(desc)) =~~= fresh) by {
        assert(spec_lmap_insert(seq![(lang, name)], lang, name) =~= seq![(lang, name)]);
        assert(spec_lmap_insert(seq![(lang, desc)], lang, desc) =~= seq![(lang, desc)]);
    }
    lemma_merge_idempotent(s, fresh, lang, name, Some(desc));
}

/// Cross-language union at the category level: processing one material
/// record for two languages in turn leaves a single entry with its id,
/// whose name map holds both languages, and introduces no duplicate
/// identity.
pub proof fn lemma_material_cross_language(
    s: Seq<EntryModel>,
    rec: MaterialData,
    img1: String,
    img2: String,
    l1: Language,
    l2: Language,
    tm1: Map<i64, String>,
    tm2: Map<i64, String>,
)
    requires
        unique_ids(s),
    ensures
        ({
            let s2 = spec_mat_step(spec_mat_step(s, rec, img1, l1, tm1), rec, img2, l2, tm2);
            &&& unique_ids(s2)
            &&& exists|j: int|
                0 <= j < s2.len() && (#[trigger] s2[j]).category == Category::Materials
                    && s2[j].id == rec.id as int && lmap_has(s2[j].names, l1) && lmap_has(
                    s2[j].names,
                    l2,
                )
        }),
{
    let n1 = spec_mat_name(rec, tm1);
    let d1 = spec_mat_desc(rec, tm1);
    let n2 = spec_mat_name(rec, tm2);
    let d2 = spec_mat_desc(rec, tm2);
    let f1 = fresh_mat_model(rec, img1@, l1, n1, d1);
    let f2 = fresh_mat_model(rec, img2@, l2, n2, d2);
    assert(lmap_has(f1.names, l1)) by {
        assert(f1.names[0].0 == l1);
    }
    lemma_cross_language_union(s, f1, f2, l1, l2, n1, n2, Some(d1), Some(d2));
    let s2 = spec_merge_entry(
        spec_merge_entry(s, f1, l1, n1, Some(d1)),
        f2,
        l2,
        n2,
        Some(d2),
    );
    assert(s2 == spec_mat_step(spec_mat_step(s, rec, img1, l1, tm1), rec, img2, l2, tm2));
    let j = choose|j: int|
        0 <= j < s2.len() && (#[trigger] s2[j]).category == f1.category && s2[j].id == f1.id
            && lmap_has(s2[j].names, l1) && lmap_has(s2[j].names, l2);
    assert(s2[j].category == Category::Materials && s2[j].id == rec.id as int);
}

/// Whether the records of a table carry pairwise distinct ids, as the
/// data model demands of a raw category table.
pub open spec fn distinct_ids(recs: Seq<MaterialData>) -> bool {
    forall|i: int, j: int| 0 <= i < j < recs.len() ==> (#[trigger] recs[i]).id != (
    #[trigger] recs[j]).id
}

/// A whole material pass never introduces a duplicate identity.
pub proof fn lemma_mat_pass_unique(
    s: Seq<EntryModel>,
    recs: Seq<MaterialData>,
    imgs: Seq<String>,
    lang: Language,
    tm: Map<i64, String>,
)
    requires
        unique_ids(s),
    ensures
        unique_ids(spec_generate_materials(s, recs, imgs, lang, tm)),
    decreases recs.len(),
{
    if recs.len() > 0 {
        lemma_mat_pass_unique(s, recs.drop_last(), imgs.drop_last(), lang, tm);
        let prev = spec_generate_materials(s, recs.drop_last(), imgs.drop_last(), lang, tm);
        let rec = recs.last();
        let name = spec_mat_name(rec, tm);
        let desc = spec_mat_desc(rec, tm);
        lemma_merge_preserves_unique(
            prev,
            fresh_mat_model(rec, imgs.last()@, lang, name, desc),
            lang,
            name,
            Some(desc),
        );
    }
}

/// Whether an entry already absorbs one record's texts: inserting the
/// record's name and description for the language changes nothing.
pub open spec fn mat_entry_absorbed(
    e: EntryModel,
    rec: MaterialData,
    lang: Language,
    tm: Map<i64, String>,
) -> bool {
    &&& e.names == spec_lmap_insert(e.names, lang, spec_mat_name(rec, tm))
    &&& e.descs == spec_lmap_insert(e.descs, lang, spec_mat_desc(rec, tm))
}

/// After a pass over a distinct-id table, the entry of every record's
/// id exists and already absorbs that record's texts.
proof fn lemma_mat_pass_marks(
    s: Seq<EntryModel>,
    recs: Seq<MaterialData>,
    imgs: Seq<String>,
    lang: Language,
    tm: Map<i64, String>,
    i: int,
)
    requires
        unique_ids(s),
        distinct_ids(recs),
        imgs.len() == recs.len(),
        0 <= i < recs.len(),
    ensures
        ({
            let f = spec_generate_materials(s, recs, imgs, lang, tm);
            &&& has_entry(f, Category::Materials, recs[i].id as int)
            &&& forall|j: int|
                0 <= j < f.len() && (#[trigger] f[j]).category == Category::Materials && f[j].id
                    == recs[i].id as int ==> mat_entry_absorbed(f[j], recs[i], lang, tm)
        }),
    decreases recs.len(),
{
    let prev = spec_generate_materials(s, recs.drop_last(), imgs.drop_last(), lang, tm);
    let rec = recs.last();
    let name = spec_mat_name(rec, tm);
    let desc = spec_mat_desc(rec, tm);
    let fresh = fresh_mat_model(rec, imgs.last()@, lang, name, desc);
    let f = spec_generate_materials(s, recs, imgs, lang, tm);
    assert(f == spec_merge_entry(prev, fresh, lang, name, Some(desc)));
    lemma_merge_shape(prev, fresh, lang, name, Some(desc));
    lemma_merge_identities(
        prev,
        fresh,
        lang,
        name,
        Some(desc),
        Category::Materials,
        rec.id as int,
    );
    if i == recs.len() - 1 {
        // The last step itself plants or refreshes this record's
        // entry, and either way the result absorbs another insertion.
        if has_entry(prev, fresh.category, fresh.id) {
            let j = choose|j: int|
                0 <= j < prev.len() && (#[trigger] prev[j]).category == fresh.category
                    && prev[j].id == fresh.id && f == prev.update(
                    j,
                    model_insert_lang(prev[j], lang, name, Some(desc)),
                );
            lemma_lmap_insert_idempotent(prev[j].names, lang, name);
            lemma_lmap_insert_idempotent(prev[j].descs, lang, desc);
            assert(mat_entry_absorbed(f[j], rec, lang, tm));
            lemma_mat_pass_unique(s, recs, imgs, lang, tm);
            assert forall|k: int|
                0 <= k < f.len() && (#[trigger] f[k]).category == Category::Materials && f[k].id
                    == rec.id as int implies mat_entry_absorbed(f[k], rec, lang, tm) by {
                if k != j {
                    assert(f[j].category == Category::Materials && f[j].id == rec.id as int);
                    assert(!unique_ids(f));
                }
            }
        } else {
            assert(f == prev.push(fresh));
            let j = f.len() - 1;
            assert(f[j] == fresh);
            assert(spec_lmap_insert(seq![(lang, name)], lang, name) =~= seq![(lang, name)]);
            assert(spec_lmap_insert(seq![(lang, desc)], lang, desc) =~= seq![(lang, desc)]);
            assert(mat_entry_absorbed(f[j], rec, lang, tm));
            assert forall|k: int|
                0 <= k < f.len() && (#[trigger] f[k]).category == Category::Materials && f[k].id
                    == rec.id as int implies mat_entry_absorbed(f[k], rec, lang, tm) by {
                if k != j {
                    assert(prev[k].category == Category::Materials && prev[k].id
                        == rec.id as int);
                    assert(has_entry(prev, fresh.category, fresh.id));
                }
            }
        }
    } else {
        // An earlier record's entry is untouched by the last step,
        // whose identity differs.
        assert(forall|a: int, b: int|
            0 <= a < b < recs.drop_last().len() ==> (#[trigger] recs.drop_last()[a]).id != (
            #[trigger] recs.drop_last()[b]).id);
        lemma_mat_pass_marks(s, recs.drop_last(), imgs.drop_last(), lang, tm, i);
        assert(recs.drop_last()[i] == recs[i]);
        assert(recs[i].id != rec.id);
        if has_entry(prev, fresh.category, fresh.id) {
            let j = choose|j: int|
                0 <= j < prev.len() && (#[trigger] prev[j]).category == fresh.category
                    && prev[j].id == fresh.id && f == prev.update(
                    j,
                    model_insert_lang(prev[j], lang, name, Some(desc)),
                );
            assert(f[j].id == rec.id as int);
            assert forall|k: int|
                0 <= k < f.len() && (#[trigger] f[k]).category == Category::Materials && f[k].id
                    == recs[i].id as int implies mat_entry_absorbed(f[k], recs[i], lang, tm) by {
                assert(k != j);
                assert(f[k] == prev[k]);
            }
            let k0 = choose|k: int|
                0 <= k < prev.len() && (#[trigger] prev[k]).category == Category::Materials
                    && prev[k].id == recs[i].id as int;
            assert(f[k0].category == Category::Materials && f[k0].id == recs[i].id as int);
        } else {
            assert(f == prev.push(fresh));
            assert forall|k: int|
                0 <= k < f.len() && (#[trigger] f[k]).category == Category::Materials && f[k].id
                    == recs[i].id as int implies mat_entry_absorbed(f[k], recs[i], lang, tm) by {
                assert(k < prev.len());
                assert(f[k] == prev[k]);
            }
            let k0 = choose|k: int|
                0 <= k < prev.len() && (#[trigger] prev[k]).category == Category::Materials
                    && prev[k].id == recs[i].id as int;
            assert(f[k0].category == Category::Materials && f[k0].id == recs[i].id as int);
        }
    }
}

/// One step leaves a collection unchanged when the record's entry is
/// present and already absorbs its texts.
proof fn lemma_mat_step_absorbed(
    f: Seq<EntryModel>,
    rec: MaterialData,
    img: String,
    lang: Language,
    tm: Map<i64, String>,
)
    requires
        unique_ids(f),
        has_entry(f, Category::Materials, rec.id as int),
        forall|j: int|
            0 <= j < f.len() && (#[trigger] f[j]).category == Category::Materials && f[j].id
                == rec.id as int ==> mat_entry_absorbed(f[j], rec, lang, tm),
    ensures
        spec_mat_step(f, rec, img, lang, tm) == f,
{
    let name = spec_mat_name(rec, tm);
    let desc = spec_mat_desc(rec, tm);
    let fresh = fresh_mat_model(rec, img@, lang, name, desc);
    lemma_merge_shape(f, fresh, lang, name, Some(desc));
    let j = choose|j: int|
        0 <= j < f.len() && (#[trigger] f[j]).category == fresh.category && f[j].id == fresh.id
            && spec_merge_entry(f, fresh, lang, name, Some(desc)) == f.update(
            j,
            model_insert_lang(f[j], lang, name, Some(desc)),
        );
    assert(mat_entry_absorbed(f[j], rec, lang, tm));
    assert(model_insert_lang(f[j], lang, name, Some(desc)) =~~= f[j]);
    assert(f.update(j, f[j]) =~= f);
}

/// Replaying a whole pass leaves the collection as the first pass
/// left it, when every entry already absorbs its record's texts.
proof fn lemma_mat_pass_fixed(
    f: Seq<EntryModel>,
    recs: Seq<MaterialData>,
    imgs: Seq<String>,
    lang: Language,
    tm: Map<i64, String>,
)
    requires
        unique_ids(f),
        imgs.len() == recs.len(),
        forall|i: int|
            0 <= i < recs.len() ==> has_entry(f, Category::Materials, (#[trigger] recs[i]).id as int),
        forall|i: int, j: int|
            0 <= i < recs.len() && 0 <= j < f.len() && (#[trigger] f[j]).category
                == Category::Materials && f[j].id == (#[trigger] recs[i]).id as int
                ==> mat_entry_absorbed(f[j], recs[i], lang, tm),
    ensures
        spec_generate_materials(f, recs, imgs, lang, tm) == f,
    decreases recs.len(),
{
    if recs.len() > 0 {
        lemma_mat_pass_fixed(f, recs.drop_last(), imgs.drop_last(), lang, tm);
        assert(spec_generate_materials(f, recs, imgs, lang, tm) == spec_mat_step(
            f,
            recs.last(),
            imgs.last(),
            lang,
            tm,
        ));
        lemma_mat_step_absorbed(f, recs.last(), imgs.last(), lang, tm);
    }
}

/// Merge idempotence over a whole pass: running the material pass a
/// second time over the same table, localization and language leaves
/// the collection exactly as the first pass left it, whatever images
/// the second run would have resolved; commands and images are never
/// recomputed.  The table's ids must be pairwise distinct, as a raw
/// category table's ids are.
pub proof fn lemma_material_pass_idempotent(
    s: Seq<EntryModel>,
    recs: Seq<MaterialData>,
    imgs: Seq<String>,
    imgs2: Seq<String>,
    lang: Language,
    tm: Map<i64, String>,
)
    requires
        unique_ids(s),
        distinct_ids(recs),
        imgs.len() == recs.len(),
        imgs2.len() == recs.len(),
    ensures
        spec_generate_materials(
            spec_generate_materials(s, recs, imgs, lang, tm),
            recs,
            imgs2,
            lang,
            tm,
        ) == spec_generate_materials(s, recs, imgs, lang, tm),
{
    let f = spec_generate_materials(s, recs, imgs, lang, tm);
    lemma_mat_pass_unique(s, recs, imgs, lang, tm);
    assert forall|i: int| 0 <= i < recs.len() implies has_entry(
        f,
        Category::Materials,
        (#[trigger] recs[i]).id as int,
    ) by {
        lemma_mat_pass_marks(s, recs, imgs, lang, tm, i);
    }
    assert forall|i: int, j: int|
        0 <= i < recs.len() && 0 <= j < f.len() && (#[trigger] f[j]).category
            == Category::Materials && f[j].id == (#[trigger] recs[i]).id as int implies
        mat_entry_absorbed(f[j], recs[i], lang, tm) by {
        lemma_mat_pass_marks(s, recs, imgs, lang, tm, i);
    }
    lemma_mat_pass_fixed(f, recs, imgs2, lang, tm);
}

/// After a pass, every record's id has an entry whose name map holds
/// the processed language.
proof fn lemma_mat_pass_has_lang(
    s: Seq<EntryModel>,
    recs: Seq<MaterialData>,
    imgs: Seq<String>,
    lang: Language,
    tm: Map<i64, String>,
    i: int,
)
    requires
        unique_ids(s),
        imgs.len() == recs.len(),
        0 <= i < recs.len(),
    ensures
        ({
            let f = spec_generate_materials(s, recs, imgs, lang, tm);
            &&& has_entry(f, Category::Materials, recs[i].id as int)
            &&& forall|j: int|
                0 <= j < f.len() && (#[trigger] f[j]).category == Category::Materials && f[j].id
                    == recs[i].id as int ==> lmap_has(f[j].names, lang)
        }),
    decreases recs.len(),
{
    let prev = spec_generate_materials(s, recs.drop_last(), imgs.drop_last(), lang, tm);
    let rec = recs.last();
    let name = spec_mat_name(rec, tm);
    let desc = spec_mat_desc(rec, tm);
    let fresh = fresh_mat_model(rec, imgs.last()@, lang, name, desc);
    let f = spec_generate_materials(s, recs, imgs, lang, tm);
    assert(f == spec_merge_entry(prev, fresh, lang, name, Some(desc)));
    lemma_merge_shape(prev, fresh, lang, name, Some(desc));
    lemma_merge_identities(
        prev,
        fresh,
        lang,
        name,
        Some(desc),
        Category::Materials,
        rec.id as int,
    );
    lemma_mat_pass_unique(s, recs, imgs, lang, tm);
    if i == recs.len() - 1 {
        if has_entry(prev, fresh.category, fresh.id) {
            let j = choose|j: int|
                0 <= j < prev.len() && (#[trigger] prev[j]).category == fresh.category
                    && prev[j].id == fresh.id && f == prev.update(
                    j,
                    model_insert_lang(prev[j], lang, name, Some(desc)),
                );
            lemma_lmap_insert_keys(prev[j].names, lang, name, lang);
            assert(lmap_has(f[j].names, lang));
            assert forall|k: int|
                0 <= k < f.len() && (#[trigger] f[k]).category == Category::Materials && f[k].id
                    == rec.id as int implies lmap_has(f[k].names, lang) by {
                if k != j {
                    assert(f[j].category == Category::Materials && f[j].id == rec.id as int);
                    assert(!unique_ids(f));
                }
            }
        } else {
            assert(f == prev.push(fresh));
            let j = f.len() - 1;
            assert(f[j] == fresh);
            assert(fresh.names[0].0 == lang);
            assert(lmap_has(f[j].names, lang));
            assert forall|k: int|
                0 <= k < f.len() && (#[trigger] f[k]).category == Category::Materials && f[k].id
                    == rec.id as int implies lmap_has(f[k].names, lang) by {
                if k != j {
                    assert(prev[k].category == Category::Materials && prev[k].id
                        == rec.id as int);
                    assert(has_entry(prev, fresh.category, fresh.id));
                }
            }
        }
    } else {
        lemma_mat_pass_has_lang(s, recs.drop_last(), imgs.drop_last(), lang, tm, i);
        assert(recs.drop_last()[i] == recs[i]);
        if has_entry(prev, fresh.category, fresh.id) {
            let j = choose|j: int|
                0 <= j < prev.len() && (#[trigger] prev[j]).category == fresh.category
                    && prev[j].id == fresh.id && f == prev.update(
                    j,
                    model_insert_lang(prev[j], lang, name, Some(desc)),
                );
            assert forall|k: int|
                0 <= k < f.len() && (#[trigger] f[k]).category == Category::Materials && f[k].id
                    == recs[i].id as int implies lmap_has(f[k].names, lang) by {
                if k == j {
                    lemma_lmap_insert_keys(prev[j].names, lang, name, lang);
                } else {
                    assert(f[k] == prev[k]);
                }
            }
            let k0 = choose|k: int|
                0 <= k < prev.len() && (#[trigger] prev[k]).category == Category::Materials
                    && prev[k].id == recs[i].id as int;
            assert(f[k0].category == Category::Materials && f[k0].id == recs[i].id as int);
        } else {
            assert(f == prev.push(fresh));
            assert forall|k: int|
                0 <= k < f.len() && (#[trigger] f[k]).category == Category::Materials && f[k].id
                    == recs[i].id as int implies lmap_has(f[k].names, lang) by {
                if k == f.len() - 1 {
                    assert(fresh.names[0].0 == lang);
                } else {
                    assert(f[k] == prev[k]);
                }
            }
            let k0 = choose|k: int|
                0 <= k < prev.len() && (#[trigger] prev[k]).category == Category::Materials
                    && prev[k].id == recs[i].id as int;
            assert(f[k0].category == Category::Materials && f[k0].id == recs[i].id as int);
        }
    }
}

/// A pass never loses a language already present in an entry's name
/// map: insertion only adds keys, and appended entries are new
/// identities.
proof fn lemma_mat_pass_keeps_lang(
    s: Seq<EntryModel>,
    recs: Seq<MaterialData>,
    imgs: Seq<String>,
    lang: Language,
    tm: Map<i64, String>,
    id: int,
    q: Language,
)
    requires
        imgs.len() == recs.len(),
        has_entry(s, Category::Materials, id),
        forall|j: int|
            0 <= j < s.len() && (#[trigger] s[j]).category == Category::Materials && s[j].id == id
                ==> lmap_has(s[j].names, q),
    ensures
        ({
            let f = spec_generate_materials(s, recs, imgs, lang, tm);
            &&& has_entry(f, Category::Materials, id)
            &&& forall|j: int|
                0 <= j < f.len() && (#[trigger] f[j]).category == Category::Materials && f[j].id
                    == id ==> lmap_has(f[j].names, q)
        }),
    decreases recs.len(),
{
    if recs.len() > 0 {
        lemma_mat_pass_keeps_lang(s, recs.drop_last(), imgs.drop_last(), lang, tm, id, q);
        let prev = spec_generate_materials(s, recs.drop_last(), imgs.drop_last(), lang, tm);
        let rec = recs.last();
        let name = spec_mat_name(rec, tm);
        let desc = spec_mat_desc(rec, tm);
        let fresh = fresh_mat_model(rec, imgs.last()@, lang, name, desc);
        let f = spec_generate_materials(s, recs, imgs, lang, tm);
        assert(f == spec_merge_entry(prev, fresh, lang, name, Some(desc)));
        lemma_merge_shape(prev, fresh, lang, name, Some(desc));
        if has_entry(prev, fresh.category, fresh.id) {
            let j = choose|j: int|
                0 <= j < prev.len() && (#[trigger] prev[j]).category == fresh.category
                    && prev[j].id == fresh.id && f == prev.update(
                    j,
                    model_insert_lang(prev[j], lang, name, Some(desc)),
                );
            assert forall|k: int|
                0 <= k < f.len() && (#[trigger] f[k]).category == Category::Materials && f[k].id
                    == id implies lmap_has(f[k].names, q) by {
                if k == j {
                    lemma_lmap_insert_keys(prev[j].names, lang, name, q);
                } else {
                    assert(f[k] == prev[k]);
                }
            }
            let k0 = choose|k: int|
                0 <= k < prev.len() && (#[trigger] prev[k]).category == Category::Materials
                    && prev[k].id == id;
            assert(f[k0].category == Category::Materials && f[k0].id == id);
        } else {
            assert(f == prev.push(fresh));
            assert forall|k: int|
                0 <= k < f.len() && (#[trigger] f[k]).category == Category::Materials && f[k].id
                    == id implies lmap_has(f[k].names, q) by {
                if k == f.len() - 1 {
                    assert(has_entry(prev, fresh.category, fresh.id));
                } else {
                    assert(f[k] == prev[k]);
                }
            }
            let k0 = choose|k: int|
                0 <= k < prev.len() && (#[trigger] prev[k]).category == Category::Materials
                    && prev[k].id == id;
            assert(f[k0].category == Category::Materials && f[k0].id == id);
        }
    }
}

/// Cross-language union over whole passes: processing one table for
/// one language and then for another leaves, for every record, a
/// single entry with its id whose name map holds both languages, and
/// no id ever has two entries.
pub proof fn lemma_material_pass_cross_language(
    s: Seq<EntryModel>,
    recs: Seq<MaterialData>,
    imgs1: Seq<String>,
    imgs2: Seq<String>,
    l1: Language,
    l2: Language,
    tm1: Map<i64, String>,
    tm2: Map<i64, String>,
    i: int,
)
    requires
        unique_ids(s),
        imgs1.len() == recs.len(),
        imgs2.len() == recs.len(),
        0 <= i < recs.len(),
    ensures
        ({
            let f = spec_generate_materials(
                spec_generate_materials(s, recs, imgs1, l1, tm1),
                recs,
                imgs2,
                l2,
                tm2,
            );
            &&& unique_ids(f)
            &&& exists|j: int|
                0 <= j < f.len() && (#[trigger] f[j]).category == Category::Materials && f[j].id
                    == recs[i].id as int && lmap_has(f[j].names, l1) && lmap_has(f[j].names, l2)
        }),
{
    let f1 = spec_generate_materials(s, recs, imgs1, l1, tm1);
    let f = spec_generate_materials(f1, recs, imgs2, l2, tm2);
    lemma_mat_pass_unique(s, recs, imgs1, l1, tm1);
    lemma_mat_pass_unique(f1, recs, imgs2, l2, tm2);
    lemma_mat_pass_has_lang(s, recs, imgs1, l1, tm1, i);
    lemma_mat_pass_keeps_lang(f1, recs, imgs2, l2, tm2, recs[i].id as int, l1);
    lemma_mat_pass_has_lang(f1, recs, imgs2, l2, tm2, i);
    let j = choose|j: int|
        0 <= j < f.len() && (#[trigger] f[j]).category == Category::Materials && f[j].id
            == recs[i].id as int;
    assert(lmap_has(f[j].names, l1) && lmap_has(f[j].names, l2));
}

} // verus!
