//! The generation pipeline: per-category readers and mergers, the
//! output collection, selection parsing and the per-run plan.

pub mod achievements;
pub mod artifacts;
pub mod characters;
pub mod dungeons;
pub mod materials;
pub mod monsters;
pub mod output;
pub mod quests;
pub mod scenes;
pub mod weapons;

use vstd::prelude::*;
use vstd::string::*;

use crate::commands::GameType;
use crate::generate::characters::CharacterData;
use crate::generate::artifacts::ArtifactData;
use crate::generate::materials::MaterialData;
use crate::generate::monsters::MonsterData;
use crate::generate::quests::MissionData;
use crate::generate::weapons::WeaponsData;
use crate::gi::characters::Characters as CharactersGI;
use crate::gi::artifacts::Artifact;
use crate::gi::materials::Material;
use crate::gi::monsters::{Monster as GIMonster, MonsterDescribeElement};
use crate::gi::main_quests::MainQuest;
use crate::gi::weapons::Weapon;
use crate::handbook::Language;
use crate::json::{json_doc_of, parse_json, read_table, spec_table_extracts, spec_table_parses,
    FromJson, JsonValue};
use crate::sr::characters::CharacterList as CharacterListSR;
use crate::sr::items::Items;
use crate::sr::light_cones::LightCones;
use crate::sr::mission::MissionElement;
use crate::sr::monster::Monster as SRMonster;
use crate::sr::relics::RelicElement;
use crate::text::{ascii_lower, join_comma, str_eq, str_eq_fold};
use crate::utility::TextMapError;

verus! {

/// The reader for the first game's raw export tables.
pub struct GenshinImpactExcelReader;

/// The reader for the second game's raw export tables.
pub struct StarRailExcelReader;

/// The raw-table reader for whichever game a run targets.
pub enum GameExcelReader {
    GenshinImpact(GenshinImpactExcelReader),
    StarRail(StarRailExcelReader),
}

/// Reads a whole raw table of record type `T` from file text: the
/// read succeeds exactly when the text is valid JSON whose document is
/// an array of records of the expected shape, and then the records are
/// its faithful extraction; a failure anywhere rejects the whole
/// table.
fn read_table_text<T: FromJson>(content: &str) -> (r: Result<Vec<T>, TextMapError>)
    ensures
        match r {
            Ok(recs) => json_doc_of(content@) matches Some(v) && spec_table_parses::<T>(v)
                && spec_table_extracts(recs@, v),
            Err(e) => e is JsonError && !(json_doc_of(content@) matches Some(v)
                && spec_table_parses::<T>(v)),
        },
{
    match parse_json(content) {
        Ok(v) => match read_table::<T>(&v) {
            Some(recs) => {
                proof {
                    assert(json_doc_of(content@) == Some(v));
                }
                Ok(recs)
            },
            None => Err(
                TextMapError::JsonError(
                    String::from_str("the table is not an array of records of the expected shape"),
                ),
            ),
        },
        Err(e) => Err(TextMapError::JsonError(e)),
    }
}

impl GenshinImpactExcelReader {
    /// Reads one of the first game's tables from file text.
    pub fn read_excel_data<T: FromJson>(&self, content: &str) -> (r: Result<Vec<T>, TextMapError>)
        ensures
            match r {
                Ok(recs) => json_doc_of(content@) matches Some(v) && spec_table_parses::<T>(v)
                    && spec_table_extracts(recs@, v),
                Err(e) => e is JsonError && !(json_doc_of(content@) matches Some(v)
                    && spec_table_parses::<T>(v)),
            },
    {
        read_table_text::<T>(content)
    }
}

impl StarRailExcelReader {
    /// Reads one of the second game's tables from file text.
    pub fn read_excel_data<T: FromJson>(&self, content: &str) -> (r: Result<Vec<T>, TextMapError>)
        ensures
            match r {
                Ok(recs) => json_doc_of(content@) matches Some(v) && spec_table_parses::<T>(v)
                    && spec_table_extracts(recs@, v),
                Err(e) => e is JsonError && !(json_doc_of(content@) matches Some(v)
                    && spec_table_parses::<T>(v)),
            },
    {
        read_table_text::<T>(content)
    }
}

impl GameExcelReader {
    /// Reads a table with whichever game's reader this is.
    pub fn read_excel_data<T: FromJson>(&self, content: &str) -> (r: Result<Vec<T>, TextMapError>)
        ensures
            match r {
                Ok(recs) => json_doc_of(content@) matches Some(v) && spec_table_parses::<T>(v)
                    && spec_table_extracts(recs@, v),
                Err(e) => e is JsonError && !(json_doc_of(content@) matches Some(v)
                    && spec_table_parses::<T>(v)),
            },
    {
        match self {
            GameExcelReader::GenshinImpact(reader) => reader.read_excel_data::<T>(content),
            GameExcelReader::StarRail(reader) => reader.read_excel_data::<T>(content),
        }
    }

    /// Which game this reader serves.
    pub fn game_type(&self) -> (r: GameType)
        ensures
            r == (match self {
                GameExcelReader::GenshinImpact(_) => GameType::GenshinImpact,
                GameExcelReader::StarRail(_) => GameType::HonkaiStarRail,
            }),
    {
        match self {
            GameExcelReader::GenshinImpact(_) => GameType::GenshinImpact,
            GameExcelReader::StarRail(_) => GameType::HonkaiStarRail,
        }
    }
}

/// Normalizes a whole table of first-game character rows.
pub fn characters_from_genshin(rows: &Vec<CharactersGI>) -> (r: Vec<CharacterData>)
    ensures
        r@.len() == rows@.len(),
        forall|i: int| 0 <= i < r@.len() ==> crate::generate::characters::spec_char_from_genshin(#[trigger] r@[i], rows@[i]),
{
    let n = rows.len();
    let mut out: Vec<CharacterData> = Vec::new();
    let mut i: usize = 0;
    while i < n
        invariant
            i <= n,
            n == rows@.len(),
            out@.len() == i,
            forall|j: int| 0 <= j < i ==> crate::generate::characters::spec_char_from_genshin(#[trigger] out@[j], rows@[j]),
        decreases n - i,
    {
        out.push(CharacterData::from_genshin(&rows[i]));
        i += 1;
    }
    out
}

/// Normalizes a whole table of second-game avatar rows.
pub fn characters_from_star_rail(rows: &Vec<CharacterListSR>) -> (r: Vec<CharacterData>)
    ensures
        r@.len() == rows@.len(),
        forall|i: int| 0 <= i < r@.len() ==> crate::generate::characters::spec_char_from_star_rail(#[trigger] r@[i], rows@[i]),
{
    let n = rows.len();
    let mut out: Vec<CharacterData> = Vec::new();
    let mut i: usize = 0;
    while i < n
        invariant
            i <= n,
            n == rows@.len(),
            out@.len() == i,
            forall|j: int| 0 <= j < i ==> crate::generate::characters::spec_char_from_star_rail(#[trigger] out@[j], rows@[j]),
        decreases n - i,
    {
        out.push(CharacterData::from_star_rail(&rows[i]));
        i += 1;
    }
    out
}

/// Normalizes a whole table of first-game material rows.
pub fn materials_from_genshin(rows: &Vec<Material>) -> (r: Vec<MaterialData>)
    ensures
        r@.len() == rows@.len(),
        forall|i: int| 0 <= i < r@.len() ==> crate::generate::materials::spec_mat_from_genshin(#[trigger] r@[i], rows@[i]),
{
    let n = rows.len();
    let mut out: Vec<MaterialData> = Vec::new();
    let mut i: usize = 0;
    while i < n
        invariant
            i <= n,
            n == rows@.len(),
            out@.len() == i,
            forall|j: int| 0 <= j < i ==> crate::generate::materials::spec_mat_from_genshin(#[trigger] out@[j], rows@[j]),
        decreases n - i,
    {
        out.push(MaterialData::from_genshin(&rows[i]));
        i += 1;
    }
    out
}

/// Normalizes a whole table of second-game item rows.
pub fn materials_from_star_rail(rows: &Vec<Items>) -> (r: Vec<MaterialData>)
    ensures
        r@.len() == rows@.len(),
        forall|i: int| 0 <= i < r@.len() ==> crate::generate::materials::spec_mat_from_star_rail(#[trigger] r@[i], rows@[i]),
{
    let n = rows.len();
    let mut out: Vec<MaterialData> = Vec::new();
    let mut i: usize = 0;
    while i < n
        invariant
            i <= n,
            n == rows@.len(),
            out@.len() == i,
            forall|j: int| 0 <= j < i ==> crate::generate::materials::spec_mat_from_star_rail(#[trigger] out@[j], rows@[j]),
        decreases n - i,
    {
        out.push(MaterialData::from_star_rail(&rows[i]));
        i += 1;
    }
    out
}

/// Normalizes a whole table of first-game weapon rows.
pub fn weapons_from_genshin(rows: &Vec<Weapon>) -> (r: Vec<WeaponsData>)
    ensures
        r@.len() == rows@.len(),
        forall|i: int| 0 <= i < r@.len() ==> crate::generate::weapons::spec_weapon_from_genshin(#[trigger] r@[i], rows@[i]),
{
    let n = rows.len();
    let mut out: Vec<WeaponsData> = Vec::new();
    let mut i: usize = 0;
    while i < n
        invariant
            i <= n,
            n == rows@.len(),
            out@.len() == i,
            forall|j: int| 0 <= j < i ==> crate::generate::weapons::spec_weapon_from_genshin(#[trigger] out@[j], rows@[j]),
        decreases n - i,
    {
        out.push(WeaponsData::from_genshin(&rows[i]));
        i += 1;
    }
    out
}

/// Normalizes a whole table of second-game light-cone rows.
pub fn weapons_from_star_rail(rows: &Vec<LightCones>) -> (r: Vec<WeaponsData>)
    ensures
        r@.len() == rows@.len(),
        forall|i: int| 0 <= i < r@.len() ==> crate::generate::weapons::spec_weapon_from_star_rail(#[trigger] r@[i], rows@[i]),
{
    let n = rows.len();
    let mut out: Vec<WeaponsData> = Vec::new();
    let mut i: usize = 0;
    while i < n
        invariant
            i <= n,
            n == rows@.len(),
            out@.len() == i,
            forall|j: int| 0 <= j < i ==> crate::generate::weapons::spec_weapon_from_star_rail(#[trigger] out@[j], rows@[j]),
        decreases n - i,
    {
        out.push(WeaponsData::from_star_rail(&rows[i]));
        i += 1;
    }
    out
}

/// Normalizes a whole table of first-game artifact rows.
pub fn artifacts_from_genshin(rows: &Vec<Artifact>) -> (r: Vec<ArtifactData>)
    ensures
        r@.len() == rows@.len(),
        forall|i: int| 0 <= i < r@.len() ==> crate::generate::artifacts::spec_art_from_genshin(#[trigger] r@[i], rows@[i]),
{
    let n = rows.len();
    let mut out: Vec<ArtifactData> = Vec::new();
    let mut i: usize = 0;
    while i < n
        invariant
            i <= n,
            n == rows@.len(),
            out@.len() == i,
            forall|j: int| 0 <= j < i ==> crate::generate::artifacts::spec_art_from_genshin(#[trigger] out@[j], rows@[j]),
        decreases n - i,
    {
        out.push(ArtifactData::from_genshin(&rows[i]));
        i += 1;
    }
    out
}

/// Normalizes a whole table of second-game relic rows.
pub fn artifacts_from_star_rail(rows: &Vec<RelicElement>) -> (r: Vec<ArtifactData>)
    ensures
        r@.len() == rows@.len(),
        forall|i: int| 0 <= i < r@.len() ==> crate::generate::artifacts::spec_art_from_star_rail(#[trigger] r@[i], rows@[i]),
{
    let n = rows.len();
    let mut out: Vec<ArtifactData> = Vec::new();
    let mut i: usize = 0;
    while i < n
        invariant
            i <= n,
            n == rows@.len(),
            out@.len() == i,
            forall|j: int| 0 <= j < i ==> crate::generate::artifacts::spec_art_from_star_rail(#[trigger] out@[j], rows@[j]),
        decreases n - i,
    {
        out.push(ArtifactData::from_star_rail(&rows[i]));
        i += 1;
    }
    out
}

/// Normalizes a whole table of first-game main-quest rows.
pub fn quests_from_genshin(rows: &Vec<MainQuest>) -> (r: Vec<MissionData>)
    ensures
        r@.len() == rows@.len(),
        forall|i: int| 0 <= i < r@.len() ==> crate::generate::quests::spec_quest_from_genshin(#[trigger] r@[i], rows@[i]),
{
    let n = rows.len();
    let mut out: Vec<MissionData> = Vec::new();
    let mut i: usize = 0;
    while i < n
        invariant
            i <= n,
            n == rows@.len(),
            out@.len() == i,
            forall|j: int| 0 <= j < i ==> crate::generate::quests::spec_quest_from_genshin(#[trigger] out@[j], rows@[j]),
        decreases n - i,
    {
        out.push(MissionData::from_genshin(&rows[i]));
        i += 1;
    }
    out
}

/// Normalizes a whole table of second-game mission rows.
pub fn quests_from_star_rail(rows: &Vec<MissionElement>) -> (r: Vec<MissionData>)
    ensures
        r@.len() == rows@.len(),
        forall|i: int| 0 <= i < r@.len() ==> crate::generate::quests::spec_quest_from_star_rail(#[trigger] r@[i], rows@[i]),
{
    let n = rows.len();
    let mut out: Vec<MissionData> = Vec::new();
    let mut i: usize = 0;
    while i < n
        invariant
            i <= n,
            n == rows@.len(),
            out@.len() == i,
            forall|j: int| 0 <= j < i ==> crate::generate::quests::spec_quest_from_star_rail(#[trigger] out@[j], rows@[j]),
        decreases n - i,
    {
        out.push(MissionData::from_star_rail(&rows[i]));
        i += 1;
    }
    out
}

/// Normalizes a whole table of second-game monster rows.
pub fn monsters_from_star_rail(rows: &Vec<SRMonster>) -> (r: Vec<MonsterData>)
    ensures
        r@.len() == rows@.len(),
        forall|i: int| 0 <= i < r@.len() ==> crate::generate::monsters::spec_monster_from_star_rail(#[trigger] r@[i], rows@[i]),
{
    let n = rows.len();
    let mut out: Vec<MonsterData> = Vec::new();
    let mut i: usize = 0;
    while i < n
        invariant
            i <= n,
            n == rows@.len(),
            out@.len() == i,
            forall|j: int| 0 <= j < i ==> crate::generate::monsters::spec_monster_from_star_rail(#[trigger] out@[j], rows@[j]),
        decreases n - i,
    {
        out.push(MonsterData::from_star_rail(&rows[i]));
        i += 1;
    }
    out
}

/// The first description row carrying an id, if any.
pub open spec fn spec_find_describe(
    ds: Seq<MonsterDescribeElement>,
    id: i64,
) -> Option<MonsterDescribeElement>
    decreases ds.len(),
{
    if ds.len() == 0 {
        None
    } else if ds[0].id == id {
        Some(ds[0])
    } else {
        spec_find_describe(ds.skip(1), id)
    }
}

/// Looks a description row up by id.
fn find_describe<'a>(ds: &'a Vec<MonsterDescribeElement>, id: i64) -> (r: Option<
    &'a MonsterDescribeElement,
>)
    ensures
        match r {
            Some(e) => spec_find_describe(ds@, id) == Some(*e),
            None => spec_find_describe(ds@, id) is None,
        },
{
    let n = ds.len();
    proof {
        assert(ds@.skip(0) =~= ds@);
    }
    let mut i: usize = 0;
    while i < n
        invariant
            i <= n,
            n == ds@.len(),
            spec_find_describe(ds@, id) == spec_find_describe(ds@.skip(i as int), id),
        decreases n - i,
    {
        proof {
            assert(ds@.skip(i as int)[0] == ds@[i as int]);
            assert(ds@.skip(i as int).skip(1) =~= ds@.skip(i + 1));
        }
        if ds[i].id == id {
            return Some(&ds[i]);
        }
        i += 1;
    }
    proof {
        assert(ds@.skip(i as int) =~= Seq::<MonsterDescribeElement>::empty());
    }
    None
}

/// The description row a monster row's optional foreign key resolves
/// to, if any.
pub open spec fn spec_monster_join(
    m: GIMonster,
    ds: Seq<MonsterDescribeElement>,
) -> Option<MonsterDescribeElement> {
    match m.describe_id {
        Some(k) => spec_find_describe(ds, k),
        None => None,
    }
}

/// Normalizes a whole table of first-game monster rows, joining each
/// against the description table through its optional foreign key.
pub fn monsters_from_genshin(
    rows: &Vec<GIMonster>,
    describe: &Vec<MonsterDescribeElement>,
) -> (r: Vec<MonsterData>)
    ensures
        r@.len() == rows@.len(),
        forall|i: int|
            0 <= i < r@.len() ==> crate::generate::monsters::spec_monster_from_genshin(
                #[trigger] r@[i],
                rows@[i],
                spec_monster_join(rows@[i], describe@),
            ),
{
    let n = rows.len();
    let mut out: Vec<MonsterData> = Vec::new();
    let mut i: usize = 0;
    while i < n
        invariant
            i <= n,
            n == rows@.len(),
            out@.len() == i,
            forall|j: int|
                0 <= j < i ==> crate::generate::monsters::spec_monster_from_genshin(
                    #[trigger] out@[j],
                    rows@[j],
                    spec_monster_join(rows@[j], describe@),
                ),
        decreases n - i,
    {
        let d: Option<&MonsterDescribeElement> = match rows[i].describe_id {
            Some(k) => find_describe(describe, k),
            None => None,
        };
        out.push(MonsterData::from_genshin(&rows[i], d));
        i += 1;
    }
    out
}

/// A kind of value that user selection tokens name: it lists all its
/// values, spells each as a token, and parses tokens back, ignoring
/// ASCII case.
pub trait AllVariants: Sized {
    /// All values, in canonical order.
    spec fn spec_all() -> Seq<Self>;

    /// The token of one value.
    spec fn spec_token(&self) -> Seq<char>;

    /// The value a token names, up to ASCII case, if any.
    spec fn spec_from_token(s: Seq<char>) -> Option<Self>;

    fn all() -> (r: Vec<Self>)
        ensures
            r@ == Self::spec_all(),
    ;

    fn token(&self) -> (r: String)
        ensures
            r@ == self.spec_token(),
    ;

    fn from_token(s: &str) -> (r: Option<Self>)
        ensures
            r == Self::spec_from_token(s@),
    ;
}

/// The categories a generation run can select.
#[derive(Debug, Clone, Copy, PartialEq, Eq, Structural)]
pub enum SelectHandbookArgs {
    Characters,
    Materials,
    Weapons,
    Artifacts,
    Achievements,
    Quests,
    Dungeons,
    Scenes,
    Monsters,
}

/// The selection tokens are already lower-case, so folding them
/// changes nothing; this links the case-blind comparisons below to
/// the token tables.
proof fn lemma_selection_tokens_lower()
    ensures
        ascii_lower("characters"@) == "characters"@,
        ascii_lower("materials"@) == "materials"@,
        ascii_lower("weapons"@) == "weapons"@,
        ascii_lower("artifacts"@) == "artifacts"@,
        ascii_lower("achievements"@) == "achievements"@,
        ascii_lower("quests"@) == "quests"@,
        ascii_lower("dungeons"@) == "dungeons"@,
        ascii_lower("scenes"@) == "scenes"@,
        ascii_lower("monsters"@) == "monsters"@,
        ascii_lower("genshin-impact"@) == "genshin-impact"@,
        ascii_lower("star-rail"@) == "star-rail"@,
{
    reveal_strlit("characters");
    reveal_strlit("materials");
    reveal_strlit("weapons");
    reveal_strlit("artifacts");
    reveal_strlit("achievements");
    reveal_strlit("quests");
    reveal_strlit("dungeons");
    reveal_strlit("scenes");
    reveal_strlit("monsters");
    reveal_strlit("genshin-impact");
    reveal_strlit("star-rail");
    assert(ascii_lower("characters"@) =~= "characters"@);
    assert(ascii_lower("materials"@) =~= "materials"@);
    assert(ascii_lower("weapons"@) =~= "weapons"@);
    assert(ascii_lower("artifacts"@) =~= "artifacts"@);
    assert(ascii_lower("achievements"@) =~= "achievements"@);
    assert(ascii_lower("quests"@) =~= "quests"@);
    assert(ascii_lower("dungeons"@) =~= "dungeons"@);
    assert(ascii_lower("scenes"@) =~= "scenes"@);
    assert(ascii_lower("monsters"@) =~= "monsters"@);
    assert(ascii_lower("genshin-impact"@) =~= "genshin-impact"@);
    assert(ascii_lower("star-rail"@) =~= "star-rail"@);
}

impl AllVariants for SelectHandbookArgs {
    open spec fn spec_all() -> Seq<SelectHandbookArgs> {
        seq![
            SelectHandbookArgs::Characters,
            SelectHandbookArgs::Materials,
            SelectHandbookArgs::Weapons,
            SelectHandbookArgs::Artifacts,
            SelectHandbookArgs::Achievements,
            SelectHandbookArgs::Quests,
            SelectHandbookArgs::Dungeons,
            SelectHandbookArgs::Scenes,
            SelectHandbookArgs::Monsters,
        ]
    }

    open spec fn spec_token(&self) -> Seq<char> {
        match self {
            SelectHandbookArgs::Characters => "characters"@,
            SelectHandbookArgs::Materials => "materials"@,
            SelectHandbookArgs::Weapons => "weapons"@,
            SelectHandbookArgs::Artifacts => "artifacts"@,
            SelectHandbookArgs::Achievements => "achievements"@,
            SelectHandbookArgs::Quests => "quests"@,
            SelectHandbookArgs::Dungeons => "dungeons"@,
            SelectHandbookArgs::Scenes => "scenes"@,
            SelectHandbookArgs::Monsters => "monsters"@,
        }
    }

    open spec fn spec_from_token(s: Seq<char>) -> Option<SelectHandbookArgs> {
        if ascii_lower(s) == "characters"@ {
            Some(SelectHandbookArgs::Characters)
        } else if ascii_lower(s) == "materials"@ {
            Some(SelectHandbookArgs::Materials)
        } else if ascii_lower(s) == "weapons"@ {
            Some(SelectHandbookArgs::Weapons)
        } else if ascii_lower(s) == "artifacts"@ {
            Some(SelectHandbookArgs::Artifacts)
        } else if ascii_lower(s) == "achievements"@ {
            Some(SelectHandbookArgs::Achievements)
        } else if ascii_lower(s) == "quests"@ {
            Some(SelectHandbookArgs::Quests)
        } else if ascii_lower(s) == "dungeons"@ {
            Some(SelectHandbookArgs::Dungeons)
        } else if ascii_lower(s) == "scenes"@ {
            Some(SelectHandbookArgs::Scenes)
        } else if ascii_lower(s) == "monsters"@ {
            Some(SelectHandbookArgs::Monsters)
        } else {
            None
        }
    }

    fn all() -> (r: Vec<SelectHandbookArgs>) {
        let mut v: Vec<SelectHandbookArgs> = Vec::new();
        v.push(SelectHandbookArgs::Characters);
        v.push(SelectHandbookArgs::Materials);
        v.push(SelectHandbookArgs::Weapons);
        v.push(SelectHandbookArgs::Artifacts);
        v.push(SelectHandbookArgs::Achievements);
        v.push(SelectHandbookArgs::Quests);
        v.push(SelectHandbookArgs::Dungeons);
        v.push(SelectHandbookArgs::Scenes);
        v.push(SelectHandbookArgs::Monsters);
        proof {
            assert(v@ =~= Self::spec_all());
        }
        v
    }

    fn token(&self) -> (r: String) {
        match self {
            SelectHandbookArgs::Characters => String::from_str("characters"),
            SelectHandbookArgs::Materials => String::from_str("materials"),
            SelectHandbookArgs::Weapons => String::from_str("weapons"),
            SelectHandbookArgs::Artifacts => String::from_str("artifacts"),
            SelectHandbookArgs::Achievements => String::from_str("achievements"),
            SelectHandbookArgs::Quests => String::from_str("quests"),
            SelectHandbookArgs::Dungeons => String::from_str("dungeons"),
            SelectHandbookArgs::Scenes => String::from_str("scenes"),
            SelectHandbookArgs::Monsters => String::from_str("monsters"),
        }
    }

    fn from_token(s: &str) -> (r: Option<SelectHandbookArgs>) {
        proof {
            lemma_selection_tokens_lower();
        }
        if str_eq_fold(s, "characters") {
            Some(SelectHandbookArgs::Characters)
        } else if str_eq_fold(s, "materials") {
            Some(SelectHandbookArgs::Materials)
        } else if str_eq_fold(s, "weapons") {
            Some(SelectHandbookArgs::Weapons)
        } else if str_eq_fold(s, "artifacts") {
            Some(SelectHandbookArgs::Artifacts)
        } else if str_eq_fold(s, "achievements") {
            Some(SelectHandbookArgs::Achievements)
        } else if str_eq_fold(s, "quests") {
            Some(SelectHandbookArgs::Quests)
        } else if str_eq_fold(s, "dungeons") {
            Some(SelectHandbookArgs::Dungeons)
        } else if str_eq_fold(s, "scenes") {
            Some(SelectHandbookArgs::Scenes)
        } else if str_eq_fold(s, "monsters") {
            Some(SelectHandbookArgs::Monsters)
        } else {
            None
        }
    }
}

/// The games the image resolver and download helpers know, by their
/// public site tokens.
#[derive(Debug, Clone, Copy, PartialEq, Eq, Structural)]
pub enum GameTypeFandom {
    GenshinImpact,
    StarRail,
}

impl AllVariants for GameTypeFandom {
    open spec fn spec_all() -> Seq<GameTypeFandom> {
        seq![GameTypeFandom::StarRail, GameTypeFandom::GenshinImpact]
    }

    open spec fn spec_token(&self) -> Seq<char> {
        match self {
            GameTypeFandom::GenshinImpact => "genshin-impact"@,
            GameTypeFandom::StarRail => "star-rail"@,
        }
    }

    open spec fn spec_from_token(s: Seq<char>) -> Option<GameTypeFandom> {
        if ascii_lower(s) == "genshin-impact"@ {
            Some(GameTypeFandom::GenshinImpact)
        } else if ascii_lower(s) == "star-rail"@ {
            Some(GameTypeFandom::StarRail)
        } else {
            None
        }
    }

    fn all() -> (r: Vec<GameTypeFandom>) {
        let mut v: Vec<GameTypeFandom> = Vec::new();
        v.push(GameTypeFandom::StarRail);
        v.push(GameTypeFandom::GenshinImpact);
        proof {
            assert(v@ =~= Self::spec_all());
        }
        v
    }

    fn token(&self) -> (r: String) {
        match self {
            GameTypeFandom::GenshinImpact => String::from_str("genshin-impact"),
            GameTypeFandom::StarRail => String::from_str("star-rail"),
        }
    }

    fn from_token(s: &str) -> (r: Option<GameTypeFandom>) {
        proof {
            lemma_selection_tokens_lower();
        }
        if str_eq_fold(s, "genshin-impact") {
            Some(GameTypeFandom::GenshinImpact)
        } else if str_eq_fold(s, "star-rail") {
            Some(GameTypeFandom::StarRail)
        } else {
            None
        }
    }
}

impl AllVariants for Language {
    open spec fn spec_all() -> Seq<Language> {
        seq![
            Language::EN,
            Language::FR,
            Language::ID,
            Language::JP,
            Language::RU,
            Language::TH,
            Language::Chs,
            Language::Cht,
        ]
    }

    open spec fn spec_token(&self) -> Seq<char> {
        crate::handbook::spec_language_code(*self)
    }

    open spec fn spec_from_token(s: Seq<char>) -> Option<Language> {
        crate::handbook::spec_language_from_token(s)
    }

    fn all() -> (r: Vec<Language>) {
        let mut v: Vec<Language> = Vec::new();
        v.push(Language::EN);
        v.push(Language::FR);
        v.push(Language::ID);
        v.push(Language::JP);
        v.push(Language::RU);
        v.push(Language::TH);
        v.push(Language::Chs);
        v.push(Language::Cht);
        proof {
            assert(v@ =~= Self::spec_all());
        }
        v
    }

    fn token(&self) -> (r: String) {
        self.code()
    }

    fn from_token(s: &str) -> (r: Option<Language>) {
        match Language::from_str(s) {
            Ok(l) => Some(l),
            Err(_) => None,
        }
    }
}

/// Whether every token of a selection list names a value.
pub open spec fn all_tokens_valid<T: AllVariants>(ts: Seq<String>) -> bool {
    forall|i: int| 0 <= i < ts.len() ==> T::spec_from_token((#[trigger] ts[i])@) is Some
}

/// The tokens of a selection list that name nothing, in order.
pub open spec fn spec_invalid_tokens<T: AllVariants>(ts: Seq<String>) -> Seq<Seq<char>>
    decreases ts.len(),
{
    if ts.len() == 0 {
        Seq::empty()
    } else {
        spec_invalid_tokens::<T>(ts.drop_last()) + (if T::spec_from_token(ts.last()@) is None {
            seq![ts.last()@]
        } else {
            Seq::<Seq<char>>::empty()
        })
    }
}

/// The tokens of all known values, in canonical order.
pub open spec fn spec_all_tokens<T: AllVariants>() -> Seq<Seq<char>> {
    T::spec_all().map_values(|t: T| t.spec_token())
}

/// The message a rejected selection fails with: every invalid token,
/// then the whole valid vocabulary.
pub open spec fn spec_selection_error<T: AllVariants>(ts: Seq<String>) -> Seq<char> {
    "Error: Invalid selections: "@ + crate::text::spec_join(spec_invalid_tokens::<T>(ts), ", "@)
        + ". Available selections are: "@ + crate::text::spec_join(
        spec_all_tokens::<T>(),
        ", "@,
    )
}

/// Parses user selection tokens: an absent or empty selection means
/// all known values; otherwise every token must name a value, and any
/// unknown token fails the whole call with the message listing the
/// invalid tokens and the valid vocabulary.
pub fn parse_selections<T: AllVariants>(args: &Option<Vec<String>>) -> (r: Result<Vec<T>, String>)
    ensures
        args is None ==> (r matches Ok(v) && v@ == T::spec_all()),
        args matches Some(ts) ==> {
            &&& (ts@.len() == 0 ==> (r matches Ok(v) && v@ == T::spec_all()))
            &&& (ts@.len() > 0 && all_tokens_valid::<T>(ts@) ==> (r matches Ok(v) && v@.len()
                == ts@.len() && (forall|i: int|
                0 <= i < ts@.len() ==> Some(#[trigger] v@[i]) == T::spec_from_token(ts@[i]@))))
            &&& (ts@.len() > 0 && !all_tokens_valid::<T>(ts@) ==> (r matches Err(e) && e@
                == spec_selection_error::<T>(ts@)))
        },
{
    let ts = match args {
        None => {
            return Ok(T::all());
        },
        Some(ts) => ts,
    };
    if ts.len() == 0 {
        return Ok(T::all());
    }
    let n = ts.len();
    let mut valid: Vec<T> = Vec::new();
    let mut invalid: Vec<String> = Vec::new();
    let mut i: usize = 0;
    proof {
        assert(ts@.take(0) =~= Seq::<String>::empty());
        assert(invalid@.map_values(|s: String| s@) =~= spec_invalid_tokens::<T>(ts@.take(0)));
    }
    while i < n
        invariant
            i <= n,
            n == ts@.len(),
            invalid@.map_values(|s: String| s@) == spec_invalid_tokens::<T>(ts@.take(i as int)),
            invalid@.len() == 0 ==> valid@.len() == i && (forall|j: int|
                0 <= j < i ==> Some(#[trigger] valid@[j]) == T::spec_from_token(ts@[j]@)),
            invalid@.len() == 0 ==> forall|j: int|
                0 <= j < i ==> T::spec_from_token((#[trigger] ts@[j])@) is Some,
            invalid@.len() > 0 ==> exists|j: int|
                0 <= j < i && T::spec_from_token((#[trigger] ts@[j])@) is None,
        decreases n - i,
    {
        proof {
            assert(ts@.take(i + 1).drop_last() =~= ts@.take(i as int));
            assert(ts@.take(i + 1).last() == ts@[i as int]);
        }
        match T::from_token(ts[i].as_str()) {
            Some(t) => {
                valid.push(t);
            },
            None => {
                let ghost pre = invalid@;
                invalid.push(ts[i].clone());
                proof {
                    assert(invalid@.map_values(|s: String| s@) =~= pre.map_values(
                        |s: String| s@,
                    ) + seq![ts@[i as int]@]);
                }
            },
        }
        i += 1;
    }
    proof {
        assert(ts@.take(n as int) =~= ts@);
    }
    if invalid.len() > 0 {
        let all = T::all();
        let an = all.len();
        let mut tokens: Vec<String> = Vec::new();
        let mut k: usize = 0;
        proof {
            assert(spec_all_tokens::<T>().take(0) =~= Seq::<Seq<char>>::empty());
            assert(tokens@.map_values(|s: String| s@) =~= spec_all_tokens::<T>().take(0));
        }
        while k < an
            invariant
                k <= an,
                an == all@.len(),
                all@ == T::spec_all(),
                tokens@.map_values(|s: String| s@) == spec_all_tokens::<T>().take(k as int),
            decreases an - k,
        {
            let ghost pre = tokens@;
            tokens.push(all[k].token());
            proof {
                assert(spec_all_tokens::<T>()[k as int] == all@[k as int].spec_token());
                assert(spec_all_tokens::<T>().take(k + 1).drop_last() =~= spec_all_tokens::<
                    T,
                >().take(k as int));
                assert(spec_all_tokens::<T>().take(k + 1).last() == spec_all_tokens::<T>()[
                    k as int
                ]);
                assert(tokens@.map_values(|s: String| s@) =~= pre.map_values(|s: String| s@)
                    + seq![all@[k as int].spec_token()]);
                assert(tokens@.map_values(|s: String| s@) =~= spec_all_tokens::<T>().take(k + 1));
            }
            k += 1;
        }
        proof {
            assert(spec_all_tokens::<T>().take(an as int) =~= spec_all_tokens::<T>());
        }
        let mut msg = String::from_str("Error: Invalid selections: ");
        let bad = join_comma(&invalid);
        msg.append(bad.as_str());
        msg.append(". Available selections are: ");
        let avail = join_comma(&tokens);
        msg.append(avail.as_str());
        Err(msg)
    } else {
        Ok(valid)
    }
}

/// The paths and file name one generation run works with.
pub struct GenerateHandbookArgs {
    pub excel_path: String,
    pub text_map_path: String,
    pub output_path: String,
    pub output_file_name: String,
}

/// The game a run token names, by exact spelling.
pub open spec fn spec_game_of(s: Seq<char>) -> Option<GameType> {
    if s == "genshin-impact"@ {
        Some(GameType::GenshinImpact)
    } else if s == "star-rail"@ {
        Some(GameType::HonkaiStarRail)
    } else {
        None
    }
}

/// The categories of a validated selection, in the fixed canonical
/// order, each present exactly when selected.
pub open spec fn spec_canonical_categories(sel: Seq<SelectHandbookArgs>) -> Seq<
    SelectHandbookArgs,
>
    decreases SelectHandbookArgs::spec_all().len(),
{
    spec_canon_from(SelectHandbookArgs::spec_all(), sel)
}

/// The members of `all` that occur in `sel`, in the order of `all`.
pub open spec fn spec_canon_from(
    all: Seq<SelectHandbookArgs>,
    sel: Seq<SelectHandbookArgs>,
) -> Seq<SelectHandbookArgs>
    decreases all.len(),
{
    if all.len() == 0 {
        Seq::empty()
    } else {
        spec_canon_from(all.drop_last(), sel) + (if sel.contains(all.last()) {
            seq![all.last()]
        } else {
            Seq::empty()
        })
    }
}

/// Whether a selection list holds a category.
fn selection_contains(sel: &Vec<SelectHandbookArgs>, c: SelectHandbookArgs) -> (r: bool)
    ensures
        r == sel@.contains(c),
{
    let n = sel.len();
    let mut i: usize = 0;
    while i < n
        invariant
            i <= n,
            n == sel@.len(),
            forall|j: int| 0 <= j < i ==> sel@[j] != c,
        decreases n - i,
    {
        if sel[i] == c {
            return true;
        }
        i += 1;
    }
    proof {
        if sel@.contains(c) {
            let j = choose|j: int| 0 <= j < sel@.len() && sel@[j] == c;
        }
    }
    false
}

/// Puts a validated selection into the fixed category order.
fn canonical_categories(sel: &Vec<SelectHandbookArgs>) -> (r: Vec<SelectHandbookArgs>)
    ensures
        r@ == spec_canonical_categories(sel@),
{
    let all = SelectHandbookArgs::all();
    let n = all.len();
    let mut out: Vec<SelectHandbookArgs> = Vec::new();
    let mut i: usize = 0;
    proof {
        assert(all@.take(0) =~= Seq::<SelectHandbookArgs>::empty());
    }
    while i < n
        invariant
            i <= n,
            n == all@.len(),
            all@ == SelectHandbookArgs::spec_all(),
            out@ == spec_canon_from(all@.take(i as int), sel@),
        decreases n - i,
    {
        proof {
            assert(all@.take(i + 1).drop_last() =~= all@.take(i as int));
            assert(all@.take(i + 1).last() == all@[i as int]);
        }
        if selection_contains(sel, all[i]) {
            out.push(all[i]);
            proof {
                assert(out@ =~= spec_canon_from(all@.take(i + 1), sel@));
            }
        } else {
            proof {
                assert(out@ =~= spec_canon_from(all@.take(i + 1), sel@));
            }
        }
        i += 1;
    }
    proof {
        assert(all@.take(n as int) =~= all@);
    }
    out
}

/// What one validated run will do: the game, the selected categories
/// in fixed order, and the selected languages in the order given.
pub struct HandbookPlan {
    pub game: GameType,
    pub categories: Vec<SelectHandbookArgs>,
    pub languages: Vec<Language>,
}

/// Validates a run's inputs: the game token must be one of the two
/// known spellings, and the selections must parse; an invalid token
/// anywhere fails the whole call before any work is done.  The
/// categories come back in the fixed canonical order.
pub fn plan_handbook(
    game: &str,
    selections: &Option<Vec<String>>,
    languages: &Option<Vec<String>>,
) -> (r: Result<HandbookPlan, String>)
    ensures
        match r {
            Ok(p) => {
                &&& spec_game_of(game@) == Some(p.game)
                &&& (selections matches Some(ts) ==> (ts@.len() > 0 ==> {
                    &&& all_tokens_valid::<SelectHandbookArgs>(ts@)
                    &&& exists|v: Seq<SelectHandbookArgs>|
                        {
                            &&& v.len() == ts@.len()
                            &&& (forall|i: int|
                                0 <= i < ts@.len() ==> Some(#[trigger] v[i])
                                    == SelectHandbookArgs::spec_from_token(ts@[i]@))
                            &&& p.categories@ == spec_canonical_categories(v)
                        }
                }))
                &&& (!(selections matches Some(ts) && ts@.len() > 0) ==> p.categories@
                    == spec_canonical_categories(SelectHandbookArgs::spec_all()))
                &&& (languages matches Some(ts) ==> (ts@.len() > 0 ==> {
                    &&& all_tokens_valid::<Language>(ts@)
                    &&& p.languages@.len() == ts@.len()
                    &&& forall|i: int|
                        0 <= i < ts@.len() ==> Some(#[trigger] p.languages@[i])
                            == Language::spec_from_token(ts@[i]@)
                }))
                &&& (languages is None ==> p.languages@ == Language::spec_all())
                &&& (languages matches Some(ts) ==> (ts@.len() == 0 ==> p.languages@
                    == Language::spec_all()))
            },
            Err(e) => {
                let bad_selections = selections matches Some(ts) && ts@.len() > 0
                    && !all_tokens_valid::<SelectHandbookArgs>(ts@);
                let bad_languages = languages matches Some(ts) && ts@.len() > 0
                    && !all_tokens_valid::<Language>(ts@);
                &&& (bad_selections || bad_languages || spec_game_of(game@) is None)
                &&& (selections matches Some(ts) ==> (ts@.len() > 0 && !all_tokens_valid::<
                    SelectHandbookArgs,
                >(ts@) ==> e@ == spec_selection_error::<SelectHandbookArgs>(ts@)))
                &&& (!bad_selections ==> (languages matches Some(ts) ==> (ts@.len() > 0
                    && !all_tokens_valid::<Language>(ts@) ==> e@ == spec_selection_error::<
                    Language,
                >(ts@))))
                &&& (!bad_selections && !bad_languages ==> spec_game_of(game@) is None && e@
                    == "Unsupported game"@)
            },
        },
{
    let parsed_selections = match parse_selections::<SelectHandbookArgs>(selections) {
        Ok(v) => v,
        Err(e) => {
            return Err(e);
        },
    };
    let parsed_languages = match parse_selections::<Language>(languages) {
        Ok(v) => v,
        Err(e) => {
            return Err(e);
        },
    };
    let game_type = if str_eq(game, "genshin-impact") {
        GameType::GenshinImpact
    } else if str_eq(game, "star-rail") {
        GameType::HonkaiStarRail
    } else {
        return Err(String::from_str("Unsupported game"));
    };
    let categories = canonical_categories(&parsed_selections);
    Ok(HandbookPlan { game: game_type, categories, languages: parsed_languages })
}

/// The base name of the raw table file a category reads for a game,
/// without the `.json` extension.
pub open spec fn spec_excel_table_name(game: GameType, c: SelectHandbookArgs) -> Seq<char> {
    match game {
        GameType::GenshinImpact => match c {
            SelectHandbookArgs::Characters => "AvatarExcelConfigData"@,
            SelectHandbookArgs::Materials => "MaterialExcelConfigData"@,
            SelectHandbookArgs::Weapons => "WeaponExcelConfigData"@,
            SelectHandbookArgs::Artifacts => "ReliquaryExcelConfigData"@,
            SelectHandbookArgs::Achievements => "AchievementExcelConfigData"@,
            SelectHandbookArgs::Quests => "MainQuestExcelConfigData"@,
            SelectHandbookArgs::Dungeons => "DungeonExcelConfigData"@,
            SelectHandbookArgs::Scenes => "SceneExcelConfigData"@,
            SelectHandbookArgs::Monsters => "MonsterExcelConfigData"@,
        },
        GameType::HonkaiStarRail => match c {
            SelectHandbookArgs::Characters => "AvatarConfig"@,
            SelectHandbookArgs::Materials => "ItemConfig"@,
            SelectHandbookArgs::Weapons => "EquipmentConfig"@,
            SelectHandbookArgs::Artifacts => "ItemConfigRelic"@,
            SelectHandbookArgs::Achievements => "AchievementExcelConfigData"@,
            SelectHandbookArgs::Quests => "MainMission"@,
            SelectHandbookArgs::Dungeons => "DungeonExcelConfigData"@,
            SelectHandbookArgs::Scenes => "SceneExcelConfigData"@,
            SelectHandbookArgs::Monsters => "MonsterConfig"@,
        },
    }
}

/// The base name of the secondary table a category joins against, if
/// it has one: only the first game's monsters read a second table.
pub open spec fn spec_excel_aux_table_name(game: GameType, c: SelectHandbookArgs) -> Option<
    Seq<char>,
> {
    if game == GameType::GenshinImpact && c == SelectHandbookArgs::Monsters {
        Some("MonsterDescribeExcelConfigData"@)
    } else {
        None
    }
}

/// The raw table file a category reads for a game.
pub fn excel_table_name(game: &GameType, c: &SelectHandbookArgs) -> (r: String)
    ensures
        r@ == spec_excel_table_name(*game, *c),
{
    match game {
        GameType::GenshinImpact => match c {
            SelectHandbookArgs::Characters => String::from_str("AvatarExcelConfigData"),
            SelectHandbookArgs::Materials => String::from_str("MaterialExcelConfigData"),
            SelectHandbookArgs::Weapons => String::from_str("WeaponExcelConfigData"),
            SelectHandbookArgs::Artifacts => String::from_str("ReliquaryExcelConfigData"),
            SelectHandbookArgs::Achievements => String::from_str("AchievementExcelConfigData"),
            SelectHandbookArgs::Quests => String::from_str("MainQuestExcelConfigData"),
            SelectHandbookArgs::Dungeons => String::from_str("DungeonExcelConfigData"),
            SelectHandbookArgs::Scenes => String::from_str("SceneExcelConfigData"),
            SelectHandbookArgs::Monsters => String::from_str("MonsterExcelConfigData"),
        },
        GameType::HonkaiStarRail => match c {
            SelectHandbookArgs::Characters => String::from_str("AvatarConfig"),
            SelectHandbookArgs::Materials => String::from_str("ItemConfig"),
            SelectHandbookArgs::Weapons => String::from_str("EquipmentConfig"),
            SelectHandbookArgs::Artifacts => String::from_str("ItemConfigRelic"),
            SelectHandbookArgs::Achievements => String::from_str("AchievementExcelConfigData"),
            SelectHandbookArgs::Quests => String::from_str("MainMission"),
            SelectHandbookArgs::Dungeons => String::from_str("DungeonExcelConfigData"),
            SelectHandbookArgs::Scenes => String::from_str("SceneExcelConfigData"),
            SelectHandbookArgs::Monsters => String::from_str("MonsterConfig"),
        },
    }
}

/// The secondary table a category joins against, if it has one.
pub fn excel_aux_table_name(game: &GameType, c: &SelectHandbookArgs) -> (r: Option<String>)
    ensures
        match r {
            Some(s) => spec_excel_aux_table_name(*game, *c) == Some(s@),
            None => spec_excel_aux_table_name(*game, *c) is None,
        },
{
    match (game, c) {
        (GameType::GenshinImpact, SelectHandbookArgs::Monsters) => Some(
            String::from_str("MonsterDescribeExcelConfigData"),
        ),
        _ => None,
    }
}

/// The image folder a category's icons resolve under, for the
/// categories that carry an image at all.
pub open spec fn spec_image_folder(c: SelectHandbookArgs) -> Option<Seq<char>> {
    match c {
        SelectHandbookArgs::Characters => Some("characters"@),
        SelectHandbookArgs::Materials => Some("materials"@),
        SelectHandbookArgs::Weapons => Some("weapons"@),
        SelectHandbookArgs::Artifacts => Some("artifacts"@),
        SelectHandbookArgs::Monsters => Some("monsters"@),
        _ => None,
    }
}

/// The image folder of a category, if its entries carry images.
pub fn image_folder(c: &SelectHandbookArgs) -> (r: Option<String>)
    ensures
        match r {
            Some(s) => spec_image_folder(*c) == Some(s@),
            None => spec_image_folder(*c) is None,
        },
{
    match c {
        SelectHandbookArgs::Characters => Some(String::from_str("characters")),
        SelectHandbookArgs::Materials => Some(String::from_str("materials")),
        SelectHandbookArgs::Weapons => Some(String::from_str("weapons")),
        SelectHandbookArgs::Artifacts => Some(String::from_str("artifacts")),
        SelectHandbookArgs::Monsters => Some(String::from_str("monsters")),
        _ => None,
    }
}

/// The numeric rarity a quality-tier token denotes: the orange tier
/// is five stars, purple four, and anything else zero.
pub open spec fn spec_rarity_number(s: Seq<char>) -> u8 {
    if s == "QUALITY_ORANGE"@ {
        5
    } else if s == "QUALITY_PURPLE"@ {
        4
    } else {
        0
    }
}

/// Converts a quality-tier token to its numeric rarity.
pub fn convert_rarity_to_number(rarity: &str) -> (r: u8)
    ensures
        r == spec_rarity_number(rarity@),
{
    if str_eq(rarity, "QUALITY_ORANGE") {
        5
    } else if str_eq(rarity, "QUALITY_PURPLE") {
        4
    } else {
        0
    }
}

} // verus!
