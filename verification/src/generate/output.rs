//! The output collection: an append-only list of tagged entries, one
//! per `(category, id)`, whose localized name and description maps grow
//! as further languages are processed.  The merge-or-insert step and
//! its laws live here.

use vstd::prelude::*;

use crate::commands::{cmd_map_model, CommandMap};
use crate::generate::achievements::AchievementResult;
use crate::generate::artifacts::ArtifactResult;
use crate::generate::characters::CharacterResult;
use crate::generate::dungeons::DungeonsResult;
use crate::generate::materials::MaterialsResult;
use crate::generate::monsters::MonstersResult;
use crate::generate::quests::MainQuestResult;
use crate::generate::scenes::ScenesResult;
use crate::generate::weapons::WeaponResult;
use crate::gi::scenes::SceneType;
use crate::handbook::{Category, Language};

verus! {

/// An ordered language-to-text map, as the entries carry it.
pub type LangMap = Vec<(Language, String)>;

/// The mathematical content of a language map.
pub open spec fn lmap_model(m: Seq<(Language, String)>) -> Seq<(Language, Seq<char>)> {
    m.map_values(|p: (Language, String)| (p.0, p.1@))
}

/// Whether a language already has an entry in a model map.
pub open spec fn lmap_has(m: Seq<(Language, Seq<char>)>, l: Language) -> bool {
    exists|i: int| 0 <= i < m.len() && (#[trigger] m[i]).0 == l
}

/// Insertion into a model map: an existing language keeps its
/// position and takes the new text; a new language goes to the end.
pub open spec fn spec_lmap_insert(
    m: Seq<(Language, Seq<char>)>,
    l: Language,
    t: Seq<char>,
) -> Seq<(Language, Seq<char>)>
    decreases m.len(),
{
    if m.len() == 0 {
        seq![(l, t)]
    } else if m[0].0 == l {
        seq![(l, t)] + m.skip(1)
    } else {
        seq![m[0]] + spec_lmap_insert(m.skip(1), l, t)
    }
}

/// Inserting the same pair twice changes nothing more than once.
pub proof fn lemma_lmap_insert_idempotent(m: Seq<(Language, Seq<char>)>, l: Language, t: Seq<char>)
    ensures
        spec_lmap_insert(spec_lmap_insert(m, l, t), l, t) == spec_lmap_insert(m, l, t),
    decreases m.len(),
{
    let once = spec_lmap_insert(m, l, t);
    if m.len() == 0 {
        assert(spec_lmap_insert(once, l, t) =~= once);
    } else if m[0].0 == l {
        assert(once[0].0 == l);
        assert(spec_lmap_insert(once, l, t) =~= once);
    } else {
        lemma_lmap_insert_idempotent(m.skip(1), l, t);
        assert(once[0] == m[0]);
        assert(once.skip(1) =~= spec_lmap_insert(m.skip(1), l, t));
        assert(spec_lmap_insert(once, l, t) =~= seq![once[0]] + spec_lmap_insert(
            once.skip(1),
            l,
            t,
        ));
    }
}

/// After an insertion the map has exactly the old languages and the
/// inserted one.
pub proof fn lemma_lmap_insert_keys(
    m: Seq<(Language, Seq<char>)>,
    l: Language,
    t: Seq<char>,
    q: Language,
)
    ensures
        lmap_has(spec_lmap_insert(m, l, t), q) <==> (q == l || lmap_has(m, q)),
    decreases m.len(),
{
    let r = spec_lmap_insert(m, l, t);
    if m.len() == 0 {
        assert(r[0].0 == l);
        if lmap_has(r, q) {
            assert(q == l);
        }
        if q == l {
            assert(r[0].0 == q);
        }
    } else if m[0].0 == l {
        assert(r[0].0 == l);
        if lmap_has(r, q) && q != l {
            let i = choose|i: int| 0 <= i < r.len() && r[i].0 == q;
            assert(m[i] == r[i]);
        }
        if lmap_has(m, q) && q != l {
            let i = choose|i: int| 0 <= i < m.len() && m[i].0 == q;
            assert(r[i] == m[i]);
        }
    } else {
        lemma_lmap_insert_keys(m.skip(1), l, t, q);
        assert(r[0] == m[0]);
        assert(r.skip(1) =~= spec_lmap_insert(m.skip(1), l, t));
        if lmap_has(r, q) {
            let i = choose|i: int| 0 <= i < r.len() && r[i].0 == q;
            if i == 0 {
                assert(m[0].0 == q);
            } else {
                assert(r.skip(1)[i - 1].0 == q);
                assert(lmap_has(r.skip(1), q));
            }
        }
        if q == l || lmap_has(m, q) {
            if q == l {
                assert(lmap_has(r.skip(1), q));
                let i = choose|i: int| 0 <= i < r.skip(1).len() && r.skip(1)[i].0 == q;
                assert(r[i + 1].0 == q);
            } else {
                let i = choose|i: int| 0 <= i < m.len() && m[i].0 == q;
                if i == 0 {
                    assert(r[0].0 == q);
                } else {
                    assert(m.skip(1)[i - 1].0 == q);
                    assert(lmap_has(m.skip(1), q));
                    assert(lmap_has(r.skip(1), q));
                    let k = choose|k: int| 0 <= k < r.skip(1).len() && r.skip(1)[k].0 == q;
                    assert(r[k + 1].0 == q);
                }
            }
        }
    }
}

/// Inserts into a language map in place.
pub fn lang_insert(m: &mut LangMap, l: Language, t: String)
    ensures
        lmap_model(final(m)@) == spec_lmap_insert(lmap_model(old(m)@), l, t@),
{
    let n = m.len();
    let mut i: usize = 0;
    while i < n
        invariant
            i <= n,
            n == m@.len(),
            m@ == old(m)@,
            forall|j: int| 0 <= j < i ==> (#[trigger] m@[j]).0 != l,
        decreases n - i,
    {
        if m[i].0 == l {
            let ghost pre = m@;
            m.set(i, (l, t));
            proof {
                lemma_lmap_insert_at(lmap_model(pre), l, t@, i as int);
                assert(lmap_model(m@) =~= lmap_model(pre).update(
                    i as int,
                    (l, t@),
                ));
            }
            return ;
        }
        i += 1;
    }
    let ghost pre = m@;
    m.push((l, t));
    proof {
        lemma_lmap_insert_missing(lmap_model(pre), l, t@);
        assert(lmap_model(m@) =~= lmap_model(pre).push((l, t@)));
    }
}

/// When the first occurrence of the language is at `i`, insertion is a
/// point update there.
proof fn lemma_lmap_insert_at(m: Seq<(Language, Seq<char>)>, l: Language, t: Seq<char>, i: int)
    requires
        0 <= i < m.len(),
        m[i].0 == l,
        forall|j: int| 0 <= j < i ==> (#[trigger] m[j]).0 != l,
    ensures
        spec_lmap_insert(m, l, t) == m.update(i, (l, t)),
    decreases m.len(),
{
    if i == 0 {
        assert(spec_lmap_insert(m, l, t) =~= m.update(0, (l, t)));
    } else {
        assert(m.skip(1)[i - 1].0 == l);
        assert(forall|j: int| 0 <= j < i - 1 ==> (#[trigger] m.skip(1)[j]).0 != l);
        lemma_lmap_insert_at(m.skip(1), l, t, i - 1);
        assert(spec_lmap_insert(m, l, t) =~= m.update(i, (l, t)));
    }
}

/// When the language is absent, insertion is an append.
proof fn lemma_lmap_insert_missing(m: Seq<(Language, Seq<char>)>, l: Language, t: Seq<char>)
    requires
        forall|j: int| 0 <= j < m.len() ==> (#[trigger] m[j]).0 != l,
    ensures
        spec_lmap_insert(m, l, t) == m.push((l, t)),
    decreases m.len(),
{
    if m.len() == 0 {
        assert(spec_lmap_insert(m, l, t) =~= m.push((l, t)));
    } else {
        assert(forall|j: int| 0 <= j < m.skip(1).len() ==> (#[trigger] m.skip(1)[j]).0 != l);
        lemma_lmap_insert_missing(m.skip(1), l, t);
        assert(spec_lmap_insert(m, l, t) =~= m.push((l, t)));
    }
}

/// One output entry, tagged by its category.
#[derive(Debug, PartialEq, Eq)]
pub enum ResultData {
    Characters(CharacterResult),
    Materials(MaterialsResult),
    Weapons(WeaponResult),
    Artifacts(ArtifactResult),
    Achievements(AchievementResult),
    Quests(MainQuestResult),
    Dungeons(DungeonsResult),
    Scenes(ScenesResult),
    Monsters(MonstersResult),
}

/// The mathematical content of one entry, uniform over the nine
/// variants; fields that a variant lacks are `None` or empty.
#[verifier::ext_equal]
pub struct EntryModel {
    /// The variant tag, which together with `id` is the entry's
    /// identity.
    pub category: Category,
    pub id: int,
    pub names: Seq<(Language, Seq<char>)>,
    pub descs: Seq<(Language, Seq<char>)>,
    pub image: Option<Seq<char>>,
    /// The category field the entry carries in the output, which for
    /// the second game's tables differs from the tag.
    pub out_category: Category,
    pub rarity: Option<int>,
    pub commands: Seq<Seq<(Seq<char>, Seq<char>, Seq<char>)>>,
    pub scene_type: Option<SceneType>,
    pub scene_name: Option<Seq<char>>,
}

/// The model of one tagged entry.
pub open spec fn rd_model(r: ResultData) -> EntryModel {
    match r {
        ResultData::Characters(c) => EntryModel {
            category: Category::Characters,
            id: c.id as int,
            names: lmap_model(c.name@),
            descs: lmap_model(c.description@),
            image: Some(c.image@),
            out_category: c.category,
            rarity: match c.rarity {
                Some(x) => Some(x as int),
                None => None,
            },
            commands: cmd_map_model(c.commands),
            scene_type: None,
            scene_name: None,
        },
        ResultData::Materials(m) => EntryModel {
            category: Category::Materials,
            id: m.id as int,
            names: lmap_model(m.name@),
            descs: lmap_model(m.description@),
            image: Some(m.image@),
            out_category: m.category,
            rarity: match m.rarity {
                Some(x) => Some(x as int),
                None => None,
            },
            commands: cmd_map_model(m.commands),
            scene_type: None,
            scene_name: None,
        },
        ResultData::Weapons(w) => EntryModel {
            category: Category::Weapons,
            id: w.id as int,
            names: lmap_model(w.name@),
            descs: lmap_model(w.description@),
            image: Some(w.icon@),
            out_category: w.category,
            rarity: Some(w.rarity as int),
            commands: cmd_map_model(w.commands),
            scene_type: None,
            scene_name: None,
        },
        ResultData::Artifacts(a) => EntryModel {
            category: Category::Artifacts,
            id: a.id as int,
            names: lmap_model(a.name@),
            descs: lmap_model(a.description@),
            image: Some(a.image@),
            out_category: a.category,
            rarity: Some(a.rarity as int),
            commands: cmd_map_model(a.commands),
            scene_type: None,
            scene_name: None,
        },
        ResultData::Achievements(a) => EntryModel {
            category: Category::Achievements,
            id: a.id as int,
            names: lmap_model(a.name@),
            descs: lmap_model(a.description@),
            image: None,
            out_category: a.category,
            rarity: None,
            commands: cmd_map_model(a.commands),
            scene_type: None,
            scene_name: None,
        },
        ResultData::Quests(q) => EntryModel {
            category: Category::Quests,
            id: q.id as int,
            names: lmap_model(q.name@),
            descs: lmap_model(q.description@),
            image: None,
            out_category: q.category,
            rarity: None,
            commands: cmd_map_model(q.commands),
            scene_type: None,
            scene_name: None,
        },
        ResultData::Dungeons(d) => EntryModel {
            category: Category::Dungeons,
            id: d.id as int,
            names: lmap_model(d.name@),
            descs: lmap_model(d.description@),
            image: None,
            out_category: d.category,
            rarity: None,
            commands: cmd_map_model(d.commands),
            scene_type: None,
            scene_name: None,
        },
        ResultData::Scenes(s) => EntryModel {
            category: Category::Scenes,
            id: s.id as int,
            names: Seq::empty(),
            descs: Seq::empty(),
            image: None,
            out_category: s.category,
            rarity: None,
            commands: cmd_map_model(s.commands),
            scene_type: Some(s.scene_type),
            scene_name: Some(s.name@),
        },
        ResultData::Monsters(m) => EntryModel {
            category: Category::Monsters,
            id: m.id as int,
            names: lmap_model(m.name@),
            descs: lmap_model(m.description@),
            image: match m.image {
                Some(s) => Some(s@),
                None => None,
            },
            out_category: m.category,
            rarity: None,
            commands: cmd_map_model(m.commands),
            scene_type: None,
            scene_name: None,
        },
    }
}

/// The model of a whole collection.
pub open spec fn rds_model(s: Seq<ResultData>) -> Seq<EntryModel> {
    s.map_values(|r: ResultData| rd_model(r))
}

/// What merging a language into an existing entry does: its name and
/// description maps take the new texts; everything else, commands and
/// image included, is never recomputed.  A scene entry carries no
/// localized maps and stays as it is.
pub open spec fn model_insert_lang(
    e: EntryModel,
    lang: Language,
    name: Seq<char>,
    desc: Option<Seq<char>>,
) -> EntryModel {
    if e.category == Category::Scenes {
        e
    } else {
        EntryModel {
            names: spec_lmap_insert(e.names, lang, name),
            descs: match desc {
                Some(d) => spec_lmap_insert(e.descs, lang, d),
                None => e.descs,
            },
            ..e
        }
    }
}

/// The merge-or-insert step over models: the first entry with the
/// same identity takes the new language texts; if none exists, the
/// fresh entry is appended.
pub open spec fn spec_merge_entry(
    s: Seq<EntryModel>,
    fresh: EntryModel,
    lang: Language,
    name: Seq<char>,
    desc: Option<Seq<char>>,
) -> Seq<EntryModel>
    decreases s.len(),
{
    if s.len() == 0 {
        seq![fresh]
    } else if s[0].category == fresh.category && s[0].id == fresh.id {
        seq![model_insert_lang(s[0], lang, name, desc)] + s.skip(1)
    } else {
        seq![s[0]] + spec_merge_entry(s.skip(1), fresh, lang, name, desc)
    }
}

/// The view of an optional owned text.
pub open spec fn spec_opt_text(d: Option<String>) -> Option<Seq<char>> {
    match d {
        Some(s) => Some(s@),
        None => None,
    }
}

/// Whether two entries share their identity, the variant tag and id.
fn same_slot(a: &ResultData, b: &ResultData) -> (r: bool)
    ensures
        r <==> (rd_model(*a).category == rd_model(*b).category && rd_model(*a).id == rd_model(
            *b,
        ).id),
{
    match (a, b) {
        (ResultData::Characters(x), ResultData::Characters(y)) => x.id == y.id,
        (ResultData::Materials(x), ResultData::Materials(y)) => x.id == y.id,
        (ResultData::Weapons(x), ResultData::Weapons(y)) => x.id == y.id,
        (ResultData::Artifacts(x), ResultData::Artifacts(y)) => x.id == y.id,
        (ResultData::Achievements(x), ResultData::Achievements(y)) => x.id == y.id,
        (ResultData::Quests(x), ResultData::Quests(y)) => x.id == y.id,
        (ResultData::Dungeons(x), ResultData::Dungeons(y)) => x.id == y.id,
        (ResultData::Scenes(x), ResultData::Scenes(y)) => x.id == y.id,
        (ResultData::Monsters(x), ResultData::Monsters(y)) => x.id == y.id,
        _ => false,
    }
}

/// Applies one language's texts to an owned entry.
fn apply_insert_lang(e: ResultData, lang: Language, name: String, desc: Option<String>) -> (r:
    ResultData)
    ensures
        rd_model(r) == model_insert_lang(rd_model(e), lang, name@, spec_opt_text(desc)),
{
    let ghost em = rd_model(e);
    match e {
        ResultData::Characters(mut c) => {
            lang_insert(&mut c.name, lang, name);
            match desc {
                Some(d) => {
                    lang_insert(&mut c.description, lang, d);
                },
                None => {},
            }
            let r = ResultData::Characters(c);
            proof {
                assert(rd_model(r) =~~= model_insert_lang(em, lang, name@, spec_opt_text(desc)));
            }
            r
        },
        ResultData::Materials(mut c) => {
            lang_insert(&mut c.name, lang, name);
            match desc {
                Some(d) => {
                    lang_insert(&mut c.description, lang, d);
                },
                None => {},
            }
            let r = ResultData::Materials(c);
            proof {
                assert(rd_model(r) =~~= model_insert_lang(em, lang, name@, spec_opt_text(desc)));
            }
            r
        },
        ResultData::Weapons(mut c) => {
            lang_insert(&mut c.name, lang, name);
            match desc {
                Some(d) => {
                    lang_insert(&mut c.description, lang, d);
                },
                None => {},
            }
            let r = ResultData::Weapons(c);
            proof {
                assert(rd_model(r) =~~= model_insert_lang(em, lang, name@, spec_opt_text(desc)));
            }
            r
        },
        ResultData::Artifacts(mut c) => {
            lang_insert(&mut c.name, lang, name);
            match desc {
                Some(d) => {
                    lang_insert(&mut c.description, lang, d);
                },
                None => {},
            }
            let r = ResultData::Artifacts(c);
            proof {
                assert(rd_model(r) =~~= model_insert_lang(em, lang, name@, spec_opt_text(desc)));
            }
            r
        },
        ResultData::Achievements(mut c) => {
            lang_insert(&mut c.name, lang, name);
            match desc {
                Some(d) => {
                    lang_insert(&mut c.description, lang, d);
                },
                None => {},
            }
            let r = ResultData::Achievements(c);
            proof {
                assert(rd_model(r) =~~= model_insert_lang(em, lang, name@, spec_opt_text(desc)));
            }
            r
        },
        ResultData::Quests(mut c) => {
            lang_insert(&mut c.name, lang, name);
            match desc {
                Some(d) => {
                    lang_insert(&mut c.description, lang, d);
                },
                None => {},
            }
            let r = ResultData::Quests(c);
            proof {
                assert(rd_model(r) =~~= model_insert_lang(em, lang, name@, spec_opt_text(desc)));
            }
            r
        },
        ResultData::Dungeons(mut c) => {
            lang_insert(&mut c.name, lang, name);
            match desc {
                Some(d) => {
                    lang_insert(&mut c.description, lang, d);
                },
                None => {},
            }
            let r = ResultData::Dungeons(c);
            proof {
                assert(rd_model(r) =~~= model_insert_lang(em, lang, name@, spec_opt_text(desc)));
            }
            r
        },
        ResultData::Scenes(c) => {
            let r = ResultData::Scenes(c);
            proof {
                assert(rd_model(r) =~~= model_insert_lang(em, lang, name@, spec_opt_text(desc)));
            }
            r
        },
        ResultData::Monsters(mut c) => {
            lang_insert(&mut c.name, lang, name);
            match desc {
                Some(d) => {
                    lang_insert(&mut c.description, lang, d);
                },
                None => {},
            }
            let r = ResultData::Monsters(c);
            proof {
                assert(rd_model(r) =~~= model_insert_lang(em, lang, name@, spec_opt_text(desc)));
            }
            r
        },
    }
}

/// Merges one language's texts for an entry into the collection: the
/// first entry with the same identity takes them; otherwise the fresh
/// entry is appended, its commands and image computed once and kept.
pub fn merge_entry(
    result: &mut Vec<ResultData>,
    fresh: ResultData,
    lang: Language,
    name: String,
    desc: Option<String>,
)
    ensures
        rds_model(final(result)@) == spec_merge_entry(
            rds_model(old(result)@),
            rd_model(fresh),
            lang,
            name@,
            spec_opt_text(desc),
        ),
{
    let n = result.len();
    let mut j: usize = 0;
    while j < n
        invariant
            j <= n,
            n == result@.len(),
            result@ == old(result)@,
            forall|k: int|
                0 <= k < j ==> !(rd_model(#[trigger] result@[k]).category == rd_model(
                    fresh,
                ).category && rd_model(result@[k]).id == rd_model(fresh).id),
        decreases n - j,
    {
        if same_slot(&result[j], &fresh) {
            let ghost pre = result@;
            let entry = result.remove(j);
            let entry2 = apply_insert_lang(entry, lang, name, desc);
            proof {
                assert(forall|k: int|
                    0 <= k < j ==> !((#[trigger] rds_model(pre)[k]).category == rd_model(
                        fresh,
                    ).category && rds_model(pre)[k].id == rd_model(fresh).id));
                lemma_merge_entry_at(
                    rds_model(pre),
                    rd_model(fresh),
                    lang,
                    name@,
                    spec_opt_text(desc),
                    j as int,
                );
            }
            result.insert(j, entry2);
            proof {
                assert(result@ =~= pre.update(j as int, entry2));
                assert(rds_model(result@) =~~= spec_merge_entry(
                    rds_model(pre),
                    rd_model(fresh),
                    lang,
                    name@,
                    spec_opt_text(desc),
                ));
            }
            return ;
        }
        j += 1;
    }
    let ghost pre = result@;
    proof {
        lemma_merge_entry_missing(
            rds_model(pre),
            rd_model(fresh),
            lang,
            name@,
            spec_opt_text(desc),
        );
    }
    result.push(fresh);
    proof {
        assert(rds_model(result@) =~~= spec_merge_entry(
            rds_model(pre),
            rd_model(result@.last()),
            lang,
            name@,
            spec_opt_text(desc),
        ));
    }
}

/// When the first matching identity is at `i`, the merge is a point
/// update there.
pub proof fn lemma_merge_entry_at(
    s: Seq<EntryModel>,
    fresh: EntryModel,
    lang: Language,
    name: Seq<char>,
    desc: Option<Seq<char>>,
    i: int,
)
    requires
        0 <= i < s.len(),
        s[i].category == fresh.category && s[i].id == fresh.id,
        forall|j: int|
            0 <= j < i ==> !((#[trigger] s[j]).category == fresh.category && s[j].id == fresh.id),
    ensures
        spec_merge_entry(s, fresh, lang, name, desc) == s.update(
            i,
            model_insert_lang(s[i], lang, name, desc),
        ),
    decreases s.len(),
{
    if i == 0 {
        assert(spec_merge_entry(s, fresh, lang, name, desc) =~= s.update(
            0,
            model_insert_lang(s[0], lang, name, desc),
        ));
    } else {
        assert(s.skip(1)[i - 1] == s[i]);
        assert(forall|j: int|
            0 <= j < i - 1 ==> !((#[trigger] s.skip(1)[j]).category == fresh.category && s.skip(
                1,
            )[j].id == fresh.id));
        lemma_merge_entry_at(s.skip(1), fresh, lang, name, desc, i - 1);
        assert(spec_merge_entry(s, fresh, lang, name, desc) =~= s.update(
            i,
            model_insert_lang(s[i], lang, name, desc),
        ));
    }
}

/// Merge idempotence: merging the same entry, language and texts a
/// second time changes nothing, provided the fresh entry already
/// carries exactly the texts being inserted, as every generator
/// builds it.
pub proof fn lemma_merge_idempotent(
    s: Seq<EntryModel>,
    f: EntryModel,
    lang: Language,
    name: Seq<char>,
    desc: Option<Seq<char>>,
)
    requires
        model_insert_lang(f, lang, name, desc) == f,
    ensures
        spec_merge_entry(spec_merge_entry(s, f, lang, name, desc), f, lang, name, desc)
            == spec_merge_entry(s, f, lang, name, desc),
    decreases s.len(),
{
    let once = spec_merge_entry(s, f, lang, name, desc);
    if s.len() == 0 {
        assert(once == seq![f]);
        assert(spec_merge_entry(once, f, lang, name, desc) =~~= once);
    } else if s[0].category == f.category && s[0].id == f.id {
        let e = model_insert_lang(s[0], lang, name, desc);
        assert(once =~~= seq![e] + s.skip(1));
        assert(e.category == f.category && e.id == f.id);
        lemma_lmap_insert_idempotent(s[0].names, lang, name);
        match desc {
            Some(d) => {
                lemma_lmap_insert_idempotent(s[0].descs, lang, d);
            },
            None => {},
        }
        assert(model_insert_lang(e, lang, name, desc) =~~= e);
        assert(spec_merge_entry(once, f, lang, name, desc) =~~= once);
    } else {
        lemma_merge_idempotent(s.skip(1), f, lang, name, desc);
        assert(once[0] == s[0]);
        assert(once.skip(1) =~~= spec_merge_entry(s.skip(1), f, lang, name, desc));
        assert(spec_merge_entry(once, f, lang, name, desc) =~~= seq![once[0]]
            + spec_merge_entry(once.skip(1), f, lang, name, desc));
        assert(spec_merge_entry(once, f, lang, name, desc) =~~= once);
    }
}

/// Whether the collection holds no two entries with one identity.
pub open spec fn unique_ids(s: Seq<EntryModel>) -> bool {
    forall|i: int, j: int|
        0 <= i < j < s.len() ==> !((#[trigger] s[i]).category == (#[trigger] s[j]).category
            && s[i].id == s[j].id)
}

/// Whether some entry carries an identity.
pub open spec fn has_entry(s: Seq<EntryModel>, c: Category, id: int) -> bool {
    exists|i: int| 0 <= i < s.len() && (#[trigger] s[i]).category == c && s[i].id == id
}

/// A merge leaves exactly the old identities plus the merged one.
pub proof fn lemma_merge_identities(
    s: Seq<EntryModel>,
    f: EntryModel,
    lang: Language,
    name: Seq<char>,
    desc: Option<Seq<char>>,
    c: Category,
    id: int,
)
    ensures
        has_entry(spec_merge_entry(s, f, lang, name, desc), c, id) <==> (has_entry(s, c, id) || (c
            == f.category && id == f.id)),
    decreases s.len(),
{
    let r = spec_merge_entry(s, f, lang, name, desc);
    if s.len() == 0 {
        assert(r == seq![f]);
        if c == f.category && id == f.id {
            assert(r[0].category == c && r[0].id == id);
        }
        if has_entry(r, c, id) {
            let i = choose|i: int| 0 <= i < r.len() && (#[trigger] r[i]).category == c && r[i].id == id;
            assert(i == 0);
        }
    } else if s[0].category == f.category && s[0].id == f.id {
        let e = model_insert_lang(s[0], lang, name, desc);
        assert(e.category == s[0].category && e.id == s[0].id);
        assert(r =~~= seq![e] + s.skip(1));
        if has_entry(r, c, id) {
            let i = choose|i: int| 0 <= i < r.len() && (#[trigger] r[i]).category == c && r[i].id == id;
            if i == 0 {
                assert(s[0].category == c && s[0].id == id);
            } else {
                assert(s[i].category == c && s[i].id == id);
            }
        }
        if has_entry(s, c, id) {
            let i = choose|i: int| 0 <= i < s.len() && (#[trigger] s[i]).category == c && s[i].id == id;
            if i == 0 {
                assert(r[0].category == c && r[0].id == id);
            } else {
                assert(r[i].category == c && r[i].id == id);
            }
        }
        if c == f.category && id == f.id {
            assert(r[0].category == c && r[0].id == id);
        }
    } else {
        lemma_merge_identities(s.skip(1), f, lang, name, desc, c, id);
        assert(r[0] == s[0]);
        assert(r.skip(1) =~~= spec_merge_entry(s.skip(1), f, lang, name, desc));
        if has_entry(r, c, id) {
            let i = choose|i: int| 0 <= i < r.len() && (#[trigger] r[i]).category == c && r[i].id == id;
            if i == 0 {
                assert(s[0].category == c && s[0].id == id);
            } else {
                assert(r.skip(1)[i - 1].category == c && r.skip(1)[i - 1].id == id);
                assert(has_entry(r.skip(1), c, id));
            }
        }
        if has_entry(s, c, id) {
            let i = choose|i: int| 0 <= i < s.len() && (#[trigger] s[i]).category == c && s[i].id == id;
            if i == 0 {
                assert(r[0].category == c && r[0].id == id);
            } else {
                assert(s.skip(1)[i - 1].category == c && s.skip(1)[i - 1].id == id);
                assert(has_entry(s.skip(1), c, id));
                assert(has_entry(r.skip(1), c, id));
                let k = choose|k: int|
                    0 <= k < r.skip(1).len() && (#[trigger] r.skip(1)[k]).category == c && r.skip(
                        1,
                    )[k].id == id;
                assert(r[k + 1].category == c && r[k + 1].id == id);
            }
        }
        if c == f.category && id == f.id {
            assert(has_entry(r.skip(1), c, id));
            let k = choose|k: int|
                0 <= k < r.skip(1).len() && (#[trigger] r.skip(1)[k]).category == c && r.skip(
                    1,
                )[k].id == id;
            assert(r[k + 1].category == c && r[k + 1].id == id);
        }
    }
}

/// A merge never introduces a duplicate identity.
pub proof fn lemma_merge_preserves_unique(
    s: Seq<EntryModel>,
    f: EntryModel,
    lang: Language,
    name: Seq<char>,
    desc: Option<Seq<char>>,
)
    requires
        unique_ids(s),
    ensures
        unique_ids(spec_merge_entry(s, f, lang, name, desc)),
    decreases s.len(),
{
    let r = spec_merge_entry(s, f, lang, name, desc);
    if s.len() == 0 {
    } else if s[0].category == f.category && s[0].id == f.id {
        let e = model_insert_lang(s[0], lang, name, desc);
        assert(r =~~= seq![e] + s.skip(1));
        assert(e.category == s[0].category && e.id == s[0].id);
        assert forall|i: int, j: int| 0 <= i < j < r.len() implies !((#[trigger] r[i]).category
            == (#[trigger] r[j]).category && r[i].id == r[j].id) by {
            if i == 0 {
                assert(r[j] == s[j]);
            } else {
                assert(r[i] == s[i] && r[j] == s[j]);
            }
        }
    } else {
        assert(forall|i: int, j: int|
            0 <= i < j < s.skip(1).len() ==> !((#[trigger] s.skip(1)[i]).category == (
            #[trigger] s.skip(1)[j]).category && s.skip(1)[i].id == s.skip(1)[j].id));
        lemma_merge_preserves_unique(s.skip(1), f, lang, name, desc);
        let tail = spec_merge_entry(s.skip(1), f, lang, name, desc);
        assert(r =~~= seq![s[0]] + tail);
        assert forall|i: int, j: int| 0 <= i < j < r.len() implies !((#[trigger] r[i]).category
            == (#[trigger] r[j]).category && r[i].id == r[j].id) by {
            if i == 0 {
                assert(r[j] == tail[j - 1]);
                lemma_merge_identities(s.skip(1), f, lang, name, desc, s[0].category, s[0].id);
                if r[0].category == r[j].category && r[0].id == r[j].id {
                    assert(has_entry(tail, s[0].category, s[0].id));
                    if has_entry(s.skip(1), s[0].category, s[0].id) {
                        let k = choose|k: int|
                            0 <= k < s.skip(1).len() && (#[trigger] s.skip(1)[k]).category
                                == s[0].category && s.skip(1)[k].id == s[0].id;
                        assert(s[k + 1].category == s[0].category && s[k + 1].id == s[0].id);
                    }
                }
            } else {
                assert(r[i] == tail[i - 1] && r[j] == tail[j - 1]);
            }
        }
    }
}

/// Cross-language union: merging one id's texts for two languages in
/// turn leaves a single entry with that identity, whose name map holds
/// both languages.  The two fresh entries must agree on the identity,
/// not be scenes, and the first must carry its own language's name, as
/// every generator builds them.
pub proof fn lemma_cross_language_union(
    s: Seq<EntryModel>,
    f1: EntryModel,
    f2: EntryModel,
    l1: Language,
    l2: Language,
    n1: Seq<char>,
    n2: Seq<char>,
    d1: Option<Seq<char>>,
    d2: Option<Seq<char>>,
)
    requires
        unique_ids(s),
        f1.category == f2.category,
        f1.id == f2.id,
        f1.category != Category::Scenes,
        lmap_has(f1.names, l1),
    ensures
        ({
            let r = spec_merge_entry(
                spec_merge_entry(s, f1, l1, n1, d1),
                f2,
                l2,
                n2,
                d2,
            );
            &&& unique_ids(r)
            &&& exists|j: int|
                0 <= j < r.len() && (#[trigger] r[j]).category == f1.category && r[j].id == f1.id
                    && lmap_has(r[j].names, l1) && lmap_has(r[j].names, l2)
        }),
{
    let s1 = spec_merge_entry(s, f1, l1, n1, d1);
    let r = spec_merge_entry(s1, f2, l2, n2, d2);
    lemma_merge_preserves_unique(s, f1, l1, n1, d1);
    lemma_merge_preserves_unique(s1, f2, l2, n2, d2);
    lemma_merge_names(s, f1, l1, n1, d1);
    let j1 = choose|j: int|
        0 <= j < s1.len() && (#[trigger] s1[j]).category == f1.category && s1[j].id == f1.id
            && lmap_has(s1[j].names, l1);
    lemma_merge_point(s1, f2, l2, n2, d2, j1);
    assert(lmap_has(r[j1].names, l1) && lmap_has(r[j1].names, l2)) by {
        assert(r[j1] == model_insert_lang(s1[j1], l2, n2, d2));
        lemma_lmap_insert_keys(s1[j1].names, l2, n2, l1);
        lemma_lmap_insert_keys(s1[j1].names, l2, n2, l2);
    }
}

/// After one merge, some entry carries the merged identity together
/// with the merged language's name, unless the entry is a scene.
proof fn lemma_merge_names(
    s: Seq<EntryModel>,
    f: EntryModel,
    lang: Language,
    name: Seq<char>,
    desc: Option<Seq<char>>,
)
    requires
        f.category != Category::Scenes,
        lmap_has(f.names, lang),
    ensures
        exists|j: int|
            0 <= j < spec_merge_entry(s, f, lang, name, desc).len() && (#[trigger] spec_merge_entry(
                s,
                f,
                lang,
                name,
                desc,
            )[j]).category == f.category && spec_merge_entry(s, f, lang, name, desc)[j].id == f.id
                && lmap_has(spec_merge_entry(s, f, lang, name, desc)[j].names, lang),
    decreases s.len(),
{
    let r = spec_merge_entry(s, f, lang, name, desc);
    if s.len() == 0 {
        assert(r[0] == f);
    } else if s[0].category == f.category && s[0].id == f.id {
        assert(r[0] == model_insert_lang(s[0], lang, name, desc));
        lemma_lmap_insert_keys(s[0].names, lang, name, lang);
        assert(r[0].category == f.category && r[0].id == f.id && lmap_has(r[0].names, lang));
    } else {
        lemma_merge_names(s.skip(1), f, lang, name, desc);
        let tail = spec_merge_entry(s.skip(1), f, lang, name, desc);
        assert(r =~~= seq![s[0]] + tail);
        let j = choose|j: int|
            0 <= j < tail.len() && (#[trigger] tail[j]).category == f.category && tail[j].id == f.id
                && lmap_has(tail[j].names, lang);
        assert(r[j + 1] == tail[j]);
    }
}

/// When the entry at `j` already carries the merged identity in a
/// duplicate-free collection, the merge updates exactly that entry.
proof fn lemma_merge_point(
    s: Seq<EntryModel>,
    f: EntryModel,
    lang: Language,
    name: Seq<char>,
    desc: Option<Seq<char>>,
    j: int,
)
    requires
        unique_ids(s),
        0 <= j < s.len(),
        s[j].category == f.category,
        s[j].id == f.id,
    ensures
        spec_merge_entry(s, f, lang, name, desc) == s.update(
            j,
            model_insert_lang(s[j], lang, name, desc),
        ),
{
    assert(forall|k: int|
        0 <= k < j ==> !((#[trigger] s[k]).category == f.category && s[k].id == f.id));
    lemma_merge_entry_at(s, f, lang, name, desc, j);
}

/// When no entry has the identity, the merge is an append.
pub proof fn lemma_merge_entry_missing(
    s: Seq<EntryModel>,
    fresh: EntryModel,
    lang: Language,
    name: Seq<char>,
    desc: Option<Seq<char>>,
)
    requires
        forall|j: int|
            0 <= j < s.len() ==> !((#[trigger] s[j]).category == fresh.category && s[j].id
                == fresh.id),
    ensures
        spec_merge_entry(s, fresh, lang, name, desc) == s.push(fresh),
    decreases s.len(),
{
    if s.len() == 0 {
        assert(spec_merge_entry(s, fresh, lang, name, desc) =~= s.push(fresh));
    } else {
        assert(forall|j: int|
            0 <= j < s.skip(1).len() ==> !((#[trigger] s.skip(1)[j]).category == fresh.category
                && s.skip(1)[j].id == fresh.id));
        lemma_merge_entry_missing(s.skip(1), fresh, lang, name, desc);
        assert(spec_merge_entry(s, fresh, lang, name, desc) =~= s.push(fresh));
    }
}

/// A merge is a point update at a matching entry when the identity is
/// already present, and an append when it is not.
pub proof fn lemma_merge_shape(
    s: Seq<EntryModel>,
    f: EntryModel,
    lang: Language,
    name: Seq<char>,
    desc: Option<Seq<char>>,
)
    ensures
        ({
            let r = spec_merge_entry(s, f, lang, name, desc);
            if has_entry(s, f.category, f.id) {
                exists|j: int|
                    0 <= j < s.len() && (#[trigger] s[j]).category == f.category && s[j].id == f.id
                        && r == s.update(j, model_insert_lang(s[j], lang, name, desc))
            } else {
                r == s.push(f)
            }
        }),
    decreases s.len(),
{
    let r = spec_merge_entry(s, f, lang, name, desc);
    if s.len() == 0 {
        if has_entry(s, f.category, f.id) {
            let j = choose|j: int|
                0 <= j < s.len() && (#[trigger] s[j]).category == f.category && s[j].id == f.id;
        }
        assert(r =~~= s.push(f));
    } else if s[0].category == f.category && s[0].id == f.id {
        assert(has_entry(s, f.category, f.id));
        let e = model_insert_lang(s[0], lang, name, desc);
        assert(r =~~= s.update(0, e));
    } else {
        lemma_merge_shape(s.skip(1), f, lang, name, desc);
        let tail = spec_merge_entry(s.skip(1), f, lang, name, desc);
        assert(r =~~= seq![s[0]] + tail);
        if has_entry(s.skip(1), f.category, f.id) {
            let j = choose|j: int|
                0 <= j < s.skip(1).len() && (#[trigger] s.skip(1)[j]).category == f.category
                    && s.skip(1)[j].id == f.id && tail == s.skip(1).update(
                    j,
                    model_insert_lang(s.skip(1)[j], lang, name, desc),
                );
            assert(s[j + 1] == s.skip(1)[j]);
            assert(r =~~= s.update(j + 1, model_insert_lang(s[j + 1], lang, name, desc)));
            assert(has_entry(s, f.category, f.id));
        } else {
            assert(tail == s.skip(1).push(f));
            assert(r =~~= s.push(f));
            if has_entry(s, f.category, f.id) {
                let j = choose|j: int|
                    0 <= j < s.len() && (#[trigger] s[j]).category == f.category && s[j].id
                        == f.id;
                assert(j > 0);
                assert(s.skip(1)[j - 1].category == f.category && s.skip(1)[j - 1].id == f.id);
                assert(has_entry(s.skip(1), f.category, f.id));
            }
        }
    }
}

} // verus!
