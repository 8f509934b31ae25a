//! The command synthesizer: a pure mapping from category, id and
//! command prefix to the ordered, named command variants of each
//! admin-console kind.  The per-category template tables below are the
//! contract; slot order is load-bearing and pinned exactly.

use vstd::prelude::*;
use vstd::string::*;

use crate::handbook::{Category, Commands};
use crate::text::{spec_udec, u64_string};

verus! {

/// Which game's consoles the commands target.
#[derive(Debug, Clone, Copy, PartialEq, Eq, Structural)]
pub enum GameType {
    GenshinImpact,
    HonkaiStarRail,
}

/// The generated command set: two consoles for the first game, one for
/// the second.  Each console holds `(slot key, variant)` pairs in
/// template order, slot keys being `command_1`, `command_2`, ...
#[derive(Debug, PartialEq, Eq)]
pub enum CommandMap {
    GenshinImpact { gc: Vec<(String, Commands)>, gio: Vec<(String, Commands)> },
    HonkaiStarRail(Vec<(String, Commands)>),
}

impl Clone for CommandMap {
    /// A copy holding the same slots.
    fn clone(&self) -> (r: Self)
        ensures
            cmd_map_model(r) == cmd_map_model(*self),
    {
        match self {
            CommandMap::GenshinImpact { gc, gio } => {
                let r = CommandMap::GenshinImpact { gc: clone_slots(gc), gio: clone_slots(gio) };
                proof {
                    assert(cmd_map_model(r) =~= cmd_map_model(*self));
                }
                r
            },
            CommandMap::HonkaiStarRail(slots) => {
                let r = CommandMap::HonkaiStarRail(clone_slots(slots));
                proof {
                    assert(cmd_map_model(r) =~= cmd_map_model(*self));
                }
                r
            },
        }
    }
}

/// The mathematical content of one console's slots: key, display name
/// and command text of each entry, in order.
pub open spec fn slots_model(s: Seq<(String, Commands)>) -> Seq<(Seq<char>, Seq<char>, Seq<char>)> {
    s.map_values(|p: (String, Commands)| (p.0@, p.1.name@, p.1.command@))
}

/// The mathematical content of a whole command set.
pub open spec fn cmd_map_model(m: CommandMap) -> Seq<Seq<(Seq<char>, Seq<char>, Seq<char>)>> {
    match m {
        CommandMap::GenshinImpact { gc, gio } => seq![slots_model(gc@), slots_model(gio@)],
        CommandMap::HonkaiStarRail(slots) => seq![slots_model(slots@)],
    }
}

/// Copies a slot list.
fn clone_slots(s: &Vec<(String, Commands)>) -> (r: Vec<(String, Commands)>)
    ensures
        slots_model(r@) == slots_model(s@),
{
    let n = s.len();
    let mut r: Vec<(String, Commands)> = Vec::new();
    let mut i: usize = 0;
    while i < n
        invariant
            i <= n,
            n == s@.len(),
            r@.len() == i,
            forall|j: int|
                0 <= j < i ==> #[trigger] r@[j].0@ == s@[j].0@ && r@[j].1.name@ == s@[j].1.name@
                    && r@[j].1.command@ == s@[j].1.command@,
        decreases n - i,
    {
        let key = s[i].0.clone();
        let cmd = s[i].1.clone();
        r.push((key, cmd));
        i += 1;
    }
    proof {
        assert(slots_model(r@) =~= slots_model(s@));
    }
    r
}

/// The slot key of position `i`: `command_1` for the first entry.
pub open spec fn spec_slot_key(i: int) -> Seq<char> {
    "command_"@ + spec_udec((i + 1) as nat)
}

/// The first console's template table: display name and argument
/// suffix per slot, in presentation order.
pub open spec fn spec_gc_template(c: Category) -> Seq<(Seq<char>, Seq<char>)> {
    match c {
        Category::Characters => seq![
            ("Normal"@, ""@),
            ("With Level"@, "lv<level>"@),
            ("With Constellation"@, "c<constellation>"@),
            ("With Skill Level"@, "sl<SkillLevel>"@),
            (
                "With Level, Constellation, and Skill Level"@,
                "lv<level> c<constellation> sl<SkillLevel>"@,
            ),
        ],
        Category::Materials => seq![("Normal"@, ""@), ("With Amount"@, "x<amount>"@)],
        Category::Weapons | Category::Artifacts => seq![
            ("Normal"@, ""@),
            ("With Level"@, "lv<level>"@),
            ("With Refinement"@, "r<refinement>"@),
            ("With Amount"@, "x<amount>"@),
            ("With Level, Refinement, and Amount"@, "lv<level> r<refinement> x<amount>"@),
        ],
        Category::Achievements => seq![("Normal"@, ""@)],
        Category::Quests => seq![
            ("Add Quest"@, "add"@),
            ("Remove Quest"@, "remove"@),
            ("Start Quest"@, "start"@),
        ],
        Category::Dungeons | Category::Scenes => seq![("Normal"@, ""@)],
        Category::Monsters => seq![
            ("Normal"@, ""@),
            ("With Custom HP"@, "hp<HealthPoint>"@),
            ("With Custom Level"@, "lv<level>"@),
            ("With Amount"@, "x<amount>"@),
            ("With Custom HP, Level, and Amount"@, "hp<HealthPoint> lv<level> x<amount>"@),
        ],
        _ => seq![("Not Available"@, "This category is not available for GC"@)],
    }
}

/// The command text of one first-console slot: quest-like categories
/// put the argument before the id, location-like categories always
/// degenerate to a transport command with zero coordinates, and the
/// rest append the argument after the id, dropping the trailing space
/// when the argument is empty.
pub open spec fn spec_gc_text(c: Category, prefix: Seq<char>, id: nat, suffix: Seq<char>) -> Seq<
    char,
> {
    match c {
        Category::Quests => prefix + " "@ + suffix + " "@ + spec_udec(id),
        Category::Dungeons | Category::Scenes => prefix + " 0 0 0 "@ + spec_udec(id),
        _ => if suffix.len() == 0 {
            prefix + " "@ + spec_udec(id)
        } else {
            prefix + " "@ + spec_udec(id) + " "@ + suffix
        },
    }
}

/// The second console's table: display name and full command text.
pub open spec fn spec_gio_template(c: Category, id: nat) -> Seq<(Seq<char>, Seq<char>)> {
    match c {
        Category::Characters => seq![("Normal"@, "avatar add "@ + spec_udec(id))],
        Category::Artifacts | Category::Materials | Category::Weapons => seq![
            ("Normal"@, "item add "@ + spec_udec(id)),
            ("With Amount"@, "item add "@ + spec_udec(id) + " <amount>"@),
        ],
        Category::Quests => seq![
            ("Add Quest"@, "quest add "@ + spec_udec(id)),
            ("Accept Quest"@, "quest accept "@ + spec_udec(id)),
            ("Finish Quest"@, "quest finish "@ + spec_udec(id)),
        ],
        _ => seq![("Not Available"@, "This category is not available for GIO"@)],
    }
}

/// The other game's console table: display name and full command text.
pub open spec fn spec_hsr_template(c: Category, id: nat) -> Seq<(Seq<char>, Seq<char>)> {
    match c {
        Category::Characters => seq![
            ("Normal"@, "/give "@ + spec_udec(id)),
            ("With Level"@, "/give "@ + spec_udec(id) + " lv<level>"@),
            ("With Skill Level"@, "/give "@ + spec_udec(id) + " sl<SkillLevel>"@),
            ("With Eidolon"@, "/give "@ + spec_udec(id) + " r<eidolon>"@),
            (
                "With Level, Skill Level, and Eidolon"@,
                "/give "@ + spec_udec(id) + " lv<level> sl<SkillLevel> r<eidolon>"@,
            ),
        ],
        Category::Relics => seq![
            ("Normal"@, "/give "@ + spec_udec(id)),
            ("With Level"@, "/give "@ + spec_udec(id) + " lv<level>"@),
        ],
        Category::LightCones => seq![
            ("Normal"@, "/give "@ + spec_udec(id)),
            ("With Level"@, "/give "@ + spec_udec(id) + " lv<level>"@),
            ("With Superimposition"@, "/give "@ + spec_udec(id) + " si<superimposition>"@),
            ("With Amount"@, "/give "@ + spec_udec(id) + " x<amount>"@),
            (
                "With Level, Superimposition, and Amount"@,
                "/give "@ + spec_udec(id) + " lv<level> si<superimposition> x<amount>"@,
            ),
        ],
        Category::Monsters => seq![
            ("Normal"@, "/spawn "@ + spec_udec(id)),
            ("With Amount"@, "/spawn "@ + spec_udec(id) + " x<amount>"@),
            ("With Staged ID"@, "/spawn "@ + spec_udec(id) + " s<StageID>"@),
        ],
        _ => seq![("Not Available"@, "This category is not available for Star Rail"@)],
    }
}

/// Whether a slot list carries exactly the first console's commands for
/// a category: the keys `command_1..`, the template's display names,
/// and the formatted command texts, in template order.
pub open spec fn gc_slots_match(
    s: Seq<(String, Commands)>,
    c: Category,
    prefix: Seq<char>,
    id: nat,
) -> bool {
    let t = spec_gc_template(c);
    &&& s.len() == t.len()
    &&& forall|i: int|
        0 <= i < s.len() ==> {
            &&& (#[trigger] s[i]).0@ == spec_slot_key(i)
            &&& s[i].1.name@ == t[i].0
            &&& s[i].1.command@ == spec_gc_text(c, prefix, id, t[i].1)
        }
}

/// Whether a slot list carries exactly a full-text template's commands.
pub open spec fn full_slots_match(
    s: Seq<(String, Commands)>,
    t: Seq<(Seq<char>, Seq<char>)>,
) -> bool {
    &&& s.len() == t.len()
    &&& forall|i: int|
        0 <= i < s.len() ==> {
            &&& (#[trigger] s[i]).0@ == spec_slot_key(i)
            &&& s[i].1.name@ == t[i].0
            &&& s[i].1.command@ == t[i].1
        }
}

/// What `generate_command` returns for every input: the console maps
/// of the chosen game, each pinned slot by slot.
pub open spec fn command_map_matches(
    r: CommandMap,
    c: Category,
    id: nat,
    prefix: Seq<char>,
    game: GameType,
) -> bool {
    match game {
        GameType::GenshinImpact => {
            &&& r matches CommandMap::GenshinImpact { gc, gio }
            &&& gc_slots_match(gc@, c, prefix, id)
            &&& full_slots_match(gio@, spec_gio_template(c, id))
        },
        GameType::HonkaiStarRail => {
            &&& r matches CommandMap::HonkaiStarRail(slots)
            &&& full_slots_match(slots@, spec_hsr_template(c, id))
        },
    }
}

/// A `(name, suffix-or-text)` pair from two literals.
fn pair(a: &str, b: &str) -> (r: (String, String))
    ensures
        r.0@ == a@,
        r.1@ == b@,
{
    (String::from_str(a), String::from_str(b))
}

/// A `(name, text)` pair whose text is `head ++ id`.
fn pair_id(a: &str, head: &str, id: u32) -> (r: (String, String))
    ensures
        r.0@ == a@,
        r.1@ == head@ + spec_udec(id as nat),
{
    let t = String::from_str(head).concat(u64_string(id as u64).as_str());
    (String::from_str(a), t)
}

/// A `(name, text)` pair whose text is `head ++ id ++ tail`.
fn pair_id_tail(a: &str, head: &str, id: u32, tail: &str) -> (r: (String, String))
    ensures
        r.0@ == a@,
        r.1@ == head@ + spec_udec(id as nat) + tail@,
{
    let t = String::from_str(head).concat(u64_string(id as u64).as_str()).concat(tail);
    (String::from_str(a), t)
}

/// Whether a built pair list carries a template's entries.
pub open spec fn pairs_match(v: Seq<(String, String)>, t: Seq<(Seq<char>, Seq<char>)>) -> bool {
    &&& v.len() == t.len()
    &&& forall|i: int|
        0 <= i < v.len() ==> (#[trigger] v[i]).0@ == t[i].0 && v[i].1@ == t[i].1
}

/// Builds the first console's template for a category.
fn gc_template(c: &Category) -> (r: Vec<(String, String)>)
    ensures
        pairs_match(r@, spec_gc_template(*c)),
{
    let mut v: Vec<(String, String)> = Vec::new();
    match c {
        Category::Characters => {
            v.push(pair("Normal", ""));
            v.push(pair("With Level", "lv<level>"));
            v.push(pair("With Constellation", "c<constellation>"));
            v.push(pair("With Skill Level", "sl<SkillLevel>"));
            v.push(
                pair(
                    "With Level, Constellation, and Skill Level",
                    "lv<level> c<constellation> sl<SkillLevel>",
                ),
            );
        },
        Category::Materials => {
            v.push(pair("Normal", ""));
            v.push(pair("With Amount", "x<amount>"));
        },
        Category::Weapons | Category::Artifacts => {
            v.push(pair("Normal", ""));
            v.push(pair("With Level", "lv<level>"));
            v.push(pair("With Refinement", "r<refinement>"));
            v.push(pair("With Amount", "x<amount>"));
            v.push(
                pair("With Level, Refinement, and Amount", "lv<level> r<refinement> x<amount>"),
            );
        },
        Category::Achievements => {
            v.push(pair("Normal", ""));
        },
        Category::Quests => {
            v.push(pair("Add Quest", "add"));
            v.push(pair("Remove Quest", "remove"));
            v.push(pair("Start Quest", "start"));
        },
        Category::Dungeons | Category::Scenes => {
            v.push(pair("Normal", ""));
        },
        Category::Monsters => {
            v.push(pair("Normal", ""));
            v.push(pair("With Custom HP", "hp<HealthPoint>"));
            v.push(pair("With Custom Level", "lv<level>"));
            v.push(pair("With Amount", "x<amount>"));
            v.push(
                pair("With Custom HP, Level, and Amount", "hp<HealthPoint> lv<level> x<amount>"),
            );
        },
        Category::Items | Category::LightCones | Category::Relics => {
            v.push(pair("Not Available", "This category is not available for GC"));
        },
    }
    v
}

/// Builds the second console's entries for a category.
fn gio_template(c: &Category, id: u32) -> (r: Vec<(String, String)>)
    ensures
        pairs_match(r@, spec_gio_template(*c, id as nat)),
{
    let mut v: Vec<(String, String)> = Vec::new();
    match c {
        Category::Characters => {
            v.push(pair_id("Normal", "avatar add ", id));
        },
        Category::Artifacts | Category::Materials | Category::Weapons => {
            v.push(pair_id("Normal", "item add ", id));
            v.push(pair_id_tail("With Amount", "item add ", id, " <amount>"));
        },
        Category::Quests => {
            v.push(pair_id("Add Quest", "quest add ", id));
            v.push(pair_id("Accept Quest", "quest accept ", id));
            v.push(pair_id("Finish Quest", "quest finish ", id));
        },
        _ => {
            v.push(pair("Not Available", "This category is not available for GIO"));
        },
    }
    v
}

/// Builds the other game's console entries for a category.
fn hsr_template(c: &Category, id: u32) -> (r: Vec<(String, String)>)
    ensures
        pairs_match(r@, spec_hsr_template(*c, id as nat)),
{
    let mut v: Vec<(String, String)> = Vec::new();
    match c {
        Category::Characters => {
            v.push(pair_id("Normal", "/give ", id));
            v.push(pair_id_tail("With Level", "/give ", id, " lv<level>"));
            v.push(pair_id_tail("With Skill Level", "/give ", id, " sl<SkillLevel>"));
            v.push(pair_id_tail("With Eidolon", "/give ", id, " r<eidolon>"));
            v.push(
                pair_id_tail(
                    "With Level, Skill Level, and Eidolon",
                    "/give ",
                    id,
                    " lv<level> sl<SkillLevel> r<eidolon>",
                ),
            );
        },
        Category::Relics => {
            v.push(pair_id("Normal", "/give ", id));
            v.push(pair_id_tail("With Level", "/give ", id, " lv<level>"));
        },
        Category::LightCones => {
            v.push(pair_id("Normal", "/give ", id));
            v.push(pair_id_tail("With Level", "/give ", id, " lv<level>"));
            v.push(pair_id_tail("With Superimposition", "/give ", id, " si<superimposition>"));
            v.push(pair_id_tail("With Amount", "/give ", id, " x<amount>"));
            v.push(
                pair_id_tail(
                    "With Level, Superimposition, and Amount",
                    "/give ",
                    id,
                    " lv<level> si<superimposition> x<amount>",
                ),
            );
        },
        Category::Monsters => {
            v.push(pair_id("Normal", "/spawn ", id));
            v.push(pair_id_tail("With Amount", "/spawn ", id, " x<amount>"));
            v.push(pair_id_tail("With Staged ID", "/spawn ", id, " s<StageID>"));
        },
        _ => {
            v.push(pair("Not Available", "This category is not available for Star Rail"));
        },
    }
    v
}

/// The slot key string of position `i`.
fn slot_key(i: usize) -> (r: String)
    requires
        i < usize::MAX,
    ensures
        r@ == spec_slot_key(i as int),
{
    String::from_str("command_").concat(u64_string((i + 1) as u64).as_str())
}

/// Formats one first-console command from its template suffix.
fn gc_format(c: &Category, prefix: &str, id: u32, suffix: &str) -> (r: String)
    ensures
        r@ == spec_gc_text(*c, prefix@, id as nat, suffix@),
{
    match c {
        Category::Quests => {
            let mut s = prefix.to_owned();
            s.append(" ");
            s.append(suffix);
            s.append(" ");
            s.append(u64_string(id as u64).as_str());
            s
        },
        Category::Dungeons | Category::Scenes => {
            let mut s = prefix.to_owned();
            s.append(" 0 0 0 ");
            s.append(u64_string(id as u64).as_str());
            s
        },
        _ => {
            let mut s = prefix.to_owned();
            s.append(" ");
            s.append(u64_string(id as u64).as_str());
            if !suffix.is_empty() {
                s.append(" ");
                s.append(suffix);
            }
            s
        },
    }
}

/// The first console's slots for a category: keys, names and formatted
/// command texts in template order.
pub fn generate_gc_commands(category: &Category, id: u32, prefix: &str) -> (r: Vec<
    (String, Commands),
>)
    ensures
        gc_slots_match(r@, *category, prefix@, id as nat),
{
    let t = gc_template(category);
    let n = t.len();
    let mut r: Vec<(String, Commands)> = Vec::new();
    let mut i: usize = 0;
    while i < n
        invariant
            i <= n,
            n == t@.len(),
            pairs_match(t@, spec_gc_template(*category)),
            r@.len() == i,
            forall|j: int|
                0 <= j < i ==> {
                    &&& (#[trigger] r@[j]).0@ == spec_slot_key(j)
                    &&& r@[j].1.name@ == spec_gc_template(*category)[j].0
                    &&& r@[j].1.command@ == spec_gc_text(
                        *category,
                        prefix@,
                        id as nat,
                        spec_gc_template(*category)[j].1,
                    )
                },
        decreases n - i,
    {
        let key = slot_key(i);
        let name = t[i].0.clone();
        let command = gc_format(category, prefix, id, t[i].1.as_str());
        r.push((key, Commands { name, command }));
        i += 1;
    }
    r
}

/// Slots for a template whose entries already carry full command text.
fn full_slots(t: &Vec<(String, String)>) -> (r: Vec<(String, Commands)>)
    ensures
        r@.len() == t@.len(),
        forall|i: int|
            0 <= i < t@.len() ==> {
                &&& (#[trigger] r@[i]).0@ == spec_slot_key(i)
                &&& r@[i].1.name@ == t@[i].0@
                &&& r@[i].1.command@ == t@[i].1@
            },
{
    let n = t.len();
    let mut r: Vec<(String, Commands)> = Vec::new();
    let mut i: usize = 0;
    while i < n
        invariant
            i <= n,
            n == t@.len(),
            r@.len() == i,
            forall|j: int|
                0 <= j < i ==> {
                    &&& (#[trigger] r@[j]).0@ == spec_slot_key(j)
                    &&& r@[j].1.name@ == t@[j].0@
                    &&& r@[j].1.command@ == t@[j].1@
                },
        decreases n - i,
    {
        let key = slot_key(i);
        let name = t[i].0.clone();
        let command = t[i].1.clone();
        r.push((key, Commands { name, command }));
        i += 1;
    }
    r
}

/// The second console's slots for a category.
pub fn generate_gio_commands(category: &Category, id: u32) -> (r: Vec<(String, Commands)>)
    ensures
        full_slots_match(r@, spec_gio_template(*category, id as nat)),
{
    let t = gio_template(category, id);
    full_slots(&t)
}

/// The other game's console slots for a category.
pub fn generate_hsr_commands(category: &Category, id: u32) -> (r: Vec<(String, Commands)>)
    ensures
        full_slots_match(r@, spec_hsr_template(*category, id as nat)),
{
    let t = hsr_template(category, id);
    full_slots(&t)
}

/// Synthesizes the full command set for an entry: pure in all its
/// arguments, with every slot key, display name and command text pinned
/// by the template tables above.
pub fn generate_command(category: Category, id: u32, prefix: &str, game_type: GameType) -> (r:
    CommandMap)
    ensures
        command_map_matches(r, category, id as nat, prefix@, game_type),
{
    match game_type {
        GameType::GenshinImpact => {
            let gc = generate_gc_commands(&category, id, prefix);
            let gio = generate_gio_commands(&category, id);
            CommandMap::GenshinImpact { gc, gio }
        },
        GameType::HonkaiStarRail => {
            CommandMap::HonkaiStarRail(generate_hsr_commands(&category, id))
        },
    }
}

/// The model of the first console's slots, as the templates pin them.
pub open spec fn spec_gc_model(c: Category, prefix: Seq<char>, id: nat) -> Seq<
    (Seq<char>, Seq<char>, Seq<char>),
> {
    Seq::new(
        spec_gc_template(c).len(),
        |i: int|
            (
                spec_slot_key(i),
                spec_gc_template(c)[i].0,
                spec_gc_text(c, prefix, id, spec_gc_template(c)[i].1),
            ),
    )
}

/// The model of a full-text template's slots.
pub open spec fn spec_full_model(t: Seq<(Seq<char>, Seq<char>)>) -> Seq<
    (Seq<char>, Seq<char>, Seq<char>),
> {
    Seq::new(t.len(), |i: int| (spec_slot_key(i), t[i].0, t[i].1))
}

/// The model of the whole command set a synthesis call returns.
pub open spec fn spec_command_model(
    c: Category,
    id: nat,
    prefix: Seq<char>,
    game: GameType,
) -> Seq<Seq<(Seq<char>, Seq<char>, Seq<char>)>> {
    match game {
        GameType::GenshinImpact => seq![
            spec_gc_model(c, prefix, id),
            spec_full_model(spec_gio_template(c, id)),
        ],
        GameType::HonkaiStarRail => seq![spec_full_model(spec_hsr_template(c, id))],
    }
}

/// A command set meeting the synthesis contract has exactly the
/// template model as its content.
pub proof fn lemma_command_model(
    r: CommandMap,
    c: Category,
    id: nat,
    prefix: Seq<char>,
    game: GameType,
)
    requires
        command_map_matches(r, c, id, prefix, game),
    ensures
        cmd_map_model(r) == spec_command_model(c, id, prefix, game),
{
    match game {
        GameType::GenshinImpact => {
            let (gc, gio) = (r->GenshinImpact_gc, r->GenshinImpact_gio);
            assert(slots_model(gc@) =~= spec_gc_model(c, prefix, id));
            assert(slots_model(gio@) =~= spec_full_model(spec_gio_template(c, id)));
            assert(cmd_map_model(r) =~= spec_command_model(c, id, prefix, game));
        },
        GameType::HonkaiStarRail => {
            let slots = r->HonkaiStarRail_0;
            assert(slots_model(slots@) =~= spec_full_model(spec_hsr_template(c, id)));
            assert(cmd_map_model(r) =~= spec_command_model(c, id, prefix, game));
        },
    }
}

/// Slot stability: any two command sets for the same category, id,
/// prefix and game agree on every slot key, display name and command
/// text.  The synthesizer's output is a function of its arguments
/// alone.
pub proof fn lemma_command_slots_stable(
    r1: CommandMap,
    r2: CommandMap,
    c: Category,
    id: nat,
    prefix: Seq<char>,
    game: GameType,
)
    requires
        command_map_matches(r1, c, id, prefix, game),
        command_map_matches(r2, c, id, prefix, game),
    ensures
        cmd_map_model(r1) == cmd_map_model(r2),
{
    match game {
        GameType::GenshinImpact => {
            let (gc1, gio1) = (r1->GenshinImpact_gc, r1->GenshinImpact_gio);
            let (gc2, gio2) = (r2->GenshinImpact_gc, r2->GenshinImpact_gio);
            assert(slots_model(gc1@) =~= slots_model(gc2@));
            assert(slots_model(gio1@) =~= slots_model(gio2@));
            assert(cmd_map_model(r1) =~= cmd_map_model(r2));
        },
        GameType::HonkaiStarRail => {
            let (s1, s2) = (r1->HonkaiStarRail_0, r2->HonkaiStarRail_0);
            assert(slots_model(s1@) =~= slots_model(s2@));
            assert(cmd_map_model(r1) =~= cmd_map_model(r2));
        },
    }
}

/// Location collapse: for the dungeon and scene categories, every
/// template variant's command text is exactly `prefix ++ " 0 0 0 " ++
/// id`, whatever its display name.
pub proof fn lemma_scene_dungeon_collapse(c: Category, prefix: Seq<char>, id: nat)
    requires
        c == Category::Dungeons || c == Category::Scenes,
    ensures
        forall|i: int|
            0 <= i < spec_gc_template(c).len() ==> spec_gc_text(
                c,
                prefix,
                id,
                spec_gc_template(c)[i].1,
            ) == prefix + " 0 0 0 "@ + spec_udec(id),
{
}

} // verus!
