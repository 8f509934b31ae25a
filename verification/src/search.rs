//! Search over a previously loaded handbook: case-insensitive
//! substring match on the localized name, or exact id match under the
//! default language, plus the line-oriented source-file parser.

use vstd::prelude::*;
use vstd::string::*;

use crate::gm::{Category, Command, Commands, GmError, GmhandbookElement, NameUnion, Type};
use crate::gm::spec_gm_category_name;
use crate::text::{ascii_lower, contains_seq, find_char, i64_string, is_prefix, lemma_first_char,
    parse_i64, spec_first_char, spec_idec, spec_parse_i64, spec_strip_all, spec_trim,
    str_contains, str_eq, str_eq_fold, str_starts_with, str_trim, strip_all_prefix};

verus! {

/// What `str::to_lowercase` returns for given characters: the result
/// depends on the characters alone.
pub uninterp spec fn lower_of(s: Seq<char>) -> Seq<char>;

/// Relies on `str::to_lowercase`: the Unicode lower-casing of the
/// characters, a function of the input alone.
#[verifier::external_body]
fn lowercase(s: &str) -> (r: String)
    ensures
        r@ == lower_of(s@),
{
    s.to_lowercase()
}

/// The mathematical content of an entry's name.
#[verifier::ext_equal]
pub enum NameModel {
    Localized(Seq<(Seq<char>, Seq<char>)>),
    Plain(Seq<char>),
}

/// The mathematical content of one loaded entry, as far as the search
/// reads and returns it.
#[verifier::ext_equal]
pub struct GmElemModel {
    pub id: int,
    pub name: NameModel,
    pub description: Option<Seq<(Seq<char>, Seq<char>)>>,
    pub image: Option<Seq<char>>,
    pub category: Category,
    pub rarity: Option<int>,
    pub commands: Option<
        (Seq<(Seq<char>, Seq<char>, Seq<char>)>, Seq<(Seq<char>, Seq<char>, Seq<char>)>),
    >,
    pub icon: Option<Seq<char>>,
    pub gm_type: Option<Type>,
}

/// The content of a string-pair list.
pub open spec fn pairs_model(v: Seq<(String, String)>) -> Seq<(Seq<char>, Seq<char>)> {
    v.map_values(|p: (String, String)| (p.0@, p.1@))
}

/// The content of a command-slot list.
pub open spec fn cmd_slots_model(v: Seq<(String, Command)>) -> Seq<
    (Seq<char>, Seq<char>, Seq<char>),
> {
    v.map_values(|p: (String, Command)| (p.0@, p.1.name@, p.1.command@))
}

/// The model of one loaded entry.
pub open spec fn gm_model(e: GmhandbookElement) -> GmElemModel {
    GmElemModel {
        id: e.id as int,
        name: match e.name {
            NameUnion::Description(m) => NameModel::Localized(pairs_model(m@)),
            NameUnion::String(s) => NameModel::Plain(s@),
        },
        description: match e.description {
            Some(d) => Some(pairs_model(d@)),
            None => None,
        },
        image: match e.image {
            Some(s) => Some(s@),
            None => None,
        },
        category: e.category,
        rarity: match e.rarity {
            Some(x) => Some(x as int),
            None => None,
        },
        commands: match e.commands {
            Some(c) => Some((cmd_slots_model(c.gc@), cmd_slots_model(c.gio@))),
            None => None,
        },
        icon: match e.icon {
            Some(s) => Some(s@),
            None => None,
        },
        gm_type: e.gmhandbook_type,
    }
}

/// The model of a loaded handbook.
pub open spec fn gms_model(s: Seq<GmhandbookElement>) -> Seq<GmElemModel> {
    s.map_values(|e: GmhandbookElement| gm_model(e))
}

/// Copies a string-pair list.
fn clone_pairs(v: &Vec<(String, String)>) -> (r: Vec<(String, String)>)
    ensures
        pairs_model(r@) == pairs_model(v@),
{
    let n = v.len();
    let mut out: Vec<(String, String)> = Vec::new();
    let mut i: usize = 0;
    while i < n
        invariant
            i <= n,
            n == v@.len(),
            out@.len() == i,
            forall|j: int|
                0 <= j < i ==> (#[trigger] out@[j]).0@ == v@[j].0@ && out@[j].1@ == v@[j].1@,
        decreases n - i,
    {
        out.push((v[i].0.clone(), v[i].1.clone()));
        i += 1;
    }
    proof {
        assert(pairs_model(out@) =~= pairs_model(v@));
    }
    out
}

/// Copies a command-slot list.
fn clone_cmd_slots(v: &Vec<(String, Command)>) -> (r: Vec<(String, Command)>)
    ensures
        cmd_slots_model(r@) == cmd_slots_model(v@),
{
    let n = v.len();
    let mut out: Vec<(String, Command)> = Vec::new();
    let mut i: usize = 0;
    while i < n
        invariant
            i <= n,
            n == v@.len(),
            out@.len() == i,
            forall|j: int|
                0 <= j < i ==> (#[trigger] out@[j]).0@ == v@[j].0@ && out@[j].1.name@
                    == v@[j].1.name@ && out@[j].1.command@ == v@[j].1.command@,
        decreases n - i,
    {
        out.push((v[i].0.clone(), v[i].1.clone()));
        i += 1;
    }
    proof {
        assert(cmd_slots_model(out@) =~= cmd_slots_model(v@));
    }
    out
}

/// Copies one loaded entry, preserving its content.
fn clone_element(e: &GmhandbookElement) -> (r: GmhandbookElement)
    ensures
        gm_model(r) == gm_model(*e),
{
    let name = match &e.name {
        NameUnion::Description(m) => NameUnion::Description(clone_pairs(m)),
        NameUnion::String(s) => NameUnion::String(s.clone()),
    };
    let description = match &e.description {
        Some(d) => Some(clone_pairs(d)),
        None => None,
    };
    let image = match &e.image {
        Some(s) => Some(s.clone()),
        None => None,
    };
    let commands = match &e.commands {
        Some(c) => Some(Commands { gc: clone_cmd_slots(&c.gc), gio: clone_cmd_slots(&c.gio) }),
        None => None,
    };
    let icon = match &e.icon {
        Some(s) => Some(s.clone()),
        None => None,
    };
    let r = GmhandbookElement {
        id: e.id,
        name,
        description,
        image,
        category: e.category,
        rarity: e.rarity,
        commands,
        icon,
        gmhandbook_type: e.gmhandbook_type,
    };
    proof {
        assert(gm_model(r) =~~= gm_model(*e));
    }
    r
}

/// The first value under a key in a model map, if any.
pub open spec fn spec_map_get(m: Seq<(Seq<char>, Seq<char>)>, k: Seq<char>) -> Option<Seq<char>>
    decreases m.len(),
{
    if m.len() == 0 {
        None
    } else if m[0].0 == k {
        Some(m[0].1)
    } else {
        spec_map_get(m.skip(1), k)
    }
}

/// Looks a key up in a string-pair list.
fn map_get<'a>(m: &'a Vec<(String, String)>, k: &str) -> (r: Option<&'a String>)
    ensures
        match r {
            Some(v) => spec_map_get(pairs_model(m@), k@) == Some(v@),
            None => spec_map_get(pairs_model(m@), k@) is None,
        },
{
    let n = m.len();
    proof {
        assert(pairs_model(m@).skip(0) =~= pairs_model(m@));
    }
    let mut i: usize = 0;
    while i < n
        invariant
            i <= n,
            n == m@.len(),
            spec_map_get(pairs_model(m@), k@) == spec_map_get(
                pairs_model(m@).skip(i as int),
                k@,
            ),
        decreases n - i,
    {
        proof {
            assert(pairs_model(m@).skip(i as int)[0] == pairs_model(m@)[i as int]);
            assert(pairs_model(m@).skip(i as int).skip(1) =~= pairs_model(m@).skip(i + 1));
        }
        if str_eq(m[i].0.as_str(), k) {
            return Some(&m[i].1);
        }
        i += 1;
    }
    proof {
        assert(pairs_model(m@).skip(i as int) =~= Seq::<(Seq<char>, Seq<char>)>::empty());
    }
    None
}

/// The localization key a query-language token selects: a fixed
/// table from lower-cased token to upper-case map key, with
/// the default language's key for anything unknown.
pub open spec fn spec_lang_key(language: Seq<char>) -> Seq<char> {
    let l = ascii_lower(language);
    if l == "jp"@ {
        "JP"@
    } else if l == "id"@ {
        "ID"@
    } else if l == "cht"@ {
        "CHT"@
    } else if l == "th"@ {
        "TH"@
    } else if l == "fr"@ {
        "FR"@
    } else if l == "ru"@ {
        "RU"@
    } else if l == "chs"@ {
        "CHS"@
    } else {
        "EN"@
    }
}

/// The language tokens and keys are fixed ASCII spellings; folding the
/// tokens changes nothing.
proof fn lemma_search_tokens_lower()
    ensures
        ascii_lower("jp"@) == "jp"@,
        ascii_lower("id"@) == "id"@,
        ascii_lower("cht"@) == "cht"@,
        ascii_lower("th"@) == "th"@,
        ascii_lower("fr"@) == "fr"@,
        ascii_lower("ru"@) == "ru"@,
        ascii_lower("chs"@) == "chs"@,
        ascii_lower("en"@) == "en"@,
{
    reveal_strlit("jp");
    reveal_strlit("id");
    reveal_strlit("cht");
    reveal_strlit("th");
    reveal_strlit("fr");
    reveal_strlit("ru");
    reveal_strlit("chs");
    reveal_strlit("en");
    assert(ascii_lower("jp"@) =~= "jp"@);
    assert(ascii_lower("id"@) =~= "id"@);
    assert(ascii_lower("cht"@) =~= "cht"@);
    assert(ascii_lower("th"@) =~= "th"@);
    assert(ascii_lower("fr"@) =~= "fr"@);
    assert(ascii_lower("ru"@) =~= "ru"@);
    assert(ascii_lower("chs"@) =~= "chs"@);
    assert(ascii_lower("en"@) =~= "en"@);
}

/// The localization key a query-language token selects.
fn lang_key(language: &str) -> (r: String)
    ensures
        r@ == spec_lang_key(language@),
{
    proof {
        lemma_search_tokens_lower();
    }
    if str_eq_fold(language, "jp") {
        String::from_str("JP")
    } else if str_eq_fold(language, "id") {
        String::from_str("ID")
    } else if str_eq_fold(language, "cht") {
        String::from_str("CHT")
    } else if str_eq_fold(language, "th") {
        String::from_str("TH")
    } else if str_eq_fold(language, "fr") {
        String::from_str("FR")
    } else if str_eq_fold(language, "ru") {
        String::from_str("RU")
    } else if str_eq_fold(language, "chs") {
        String::from_str("CHS")
    } else {
        String::from_str("EN")
    }
}

/// Whether one entry matches a query: its name under the selected
/// language key contains the lower-cased query, or, under the default
/// language, its id renders exactly as the query text.
pub open spec fn spec_gm_matches(
    e: GmElemModel,
    search_raw: Seq<char>,
    search_lower: Seq<char>,
    lang_key: Seq<char>,
    en: bool,
) -> bool {
    let name = match e.name {
        NameModel::Localized(m) => spec_map_get(m, lang_key),
        NameModel::Plain(t) => Some(t),
    };
    ||| (match name {
        Some(nm) => contains_seq(lower_of(nm), search_lower),
        None => false,
    })
    ||| (en && spec_idec(e.id) == search_raw)
}

/// The matching entries in order, up to a count.
pub open spec fn spec_find(
    s: Seq<GmElemModel>,
    search_raw: Seq<char>,
    search_lower: Seq<char>,
    lang_key: Seq<char>,
    en: bool,
    limit: nat,
) -> Seq<GmElemModel>
    decreases s.len(),
{
    if s.len() == 0 || limit == 0 {
        Seq::empty()
    } else if spec_gm_matches(s[0], search_raw, search_lower, lang_key, en) {
        seq![s[0]] + spec_find(
            s.skip(1),
            search_raw,
            search_lower,
            lang_key,
            en,
            (limit - 1) as nat,
        )
    } else {
        spec_find(s.skip(1), search_raw, search_lower, lang_key, en, limit)
    }
}

/// The effective result cap: an absent or negative limit means no
/// cap beyond the table's size.
pub open spec fn spec_limit(limit: Option<i64>, n: nat) -> nat {
    match limit {
        None => n,
        Some(l) => if l < 0 || l as nat > n {
            n
        } else {
            l as nat
        },
    }
}

/// Whether one entry matches, executably.
fn gm_matches(e: &GmhandbookElement, search: &str, search_lower: &str, key: &str, en: bool) -> (r:
    bool)
    ensures
        r == spec_gm_matches(gm_model(*e), search@, search_lower@, key@, en),
{
    let name: Option<&String> = match &e.name {
        NameUnion::Description(m) => map_get(m, key),
        NameUnion::String(s) => Some(s),
    };
    let by_name = match name {
        Some(nm) => {
            let low = lowercase(nm.as_str());
            str_contains(low.as_str(), search_lower)
        },
        None => false,
    };
    if by_name {
        return true;
    }
    if en {
        let idtext = i64_string(e.id);
        str_eq(idtext.as_str(), search)
    } else {
        false
    }
}

/// Searches a loaded handbook: an empty query is rejected; otherwise
/// the matching entries come back in order, capped by the limit.  The
/// match is case-insensitive on the name under the selected language,
/// with an exact id match allowed under the default language.
pub fn find(
    handbook: &Vec<GmhandbookElement>,
    search: &str,
    language: &str,
    limit: Option<i64>,
) -> (r: Result<Vec<GmhandbookElement>, GmError>)
    ensures
        search@.len() == 0 <==> (r matches Err(e) && e is EmptySearchTerm),
        search@.len() > 0 ==> (r matches Ok(v) && gms_model(v@) == spec_find(
            gms_model(handbook@),
            search@,
            lower_of(search@),
            spec_lang_key(language@),
            ascii_lower(language@) == "en"@,
            spec_limit(limit, handbook@.len()),
        )),
{
    if search.is_empty() {
        return Err(GmError::EmptySearchTerm);
    }
    let search_lower = lowercase(search);
    let key = lang_key(language);
    let en = {
        proof {
            lemma_search_tokens_lower();
        }
        str_eq_fold(language, "en")
    };
    let n = handbook.len();
    let cap: usize = match limit {
        None => n,
        Some(l) => if l < 0 {
            n
        } else if (l as u64) >= (n as u64) {
            n
        } else {
            l as usize
        },
    };
    proof {
        assert(cap as nat == spec_limit(limit, handbook@.len()));
    }
    let ghost whole: Seq<GmElemModel> = gms_model(handbook@);
    let ghost raw: Seq<char> = search@;
    let ghost low: Seq<char> = lower_of(search@);
    let ghost lk: Seq<char> = spec_lang_key(language@);
    let ghost enf: bool = ascii_lower(language@) == "en"@;
    let mut out: Vec<GmhandbookElement> = Vec::new();
    let mut i: usize = 0;
    proof {
        assert(whole.skip(0) =~= whole);
        assert(gms_model(out@) =~= Seq::<GmElemModel>::empty());
    }
    while i < n && out.len() < cap
        invariant
            i <= n,
            n == handbook@.len(),
            cap <= n,
            out@.len() <= cap,
            whole == gms_model(handbook@),
            raw == search@,
            low == lower_of(search@),
            lk == spec_lang_key(language@),
            enf == (ascii_lower(language@) == "en"@),
            search_lower@ == low,
            key@ == lk,
            en == enf,
            spec_find(whole, raw, low, lk, enf, cap as nat) == gms_model(out@) + spec_find(
                whole.skip(i as int),
                raw,
                low,
                lk,
                enf,
                (cap - out@.len()) as nat,
            ),
        decreases n - i,
    {
        let ghost b: nat = (cap - out@.len()) as nat;
        proof {
            assert(whole.skip(i as int)[0] == whole[i as int]);
            assert(whole.skip(i as int).skip(1) =~= whole.skip(i + 1));
            assert(whole[i as int] == gm_model(handbook@[i as int]));
            assert(whole.skip(i as int).len() > 0);
            assert(b > 0);
        }
        if gm_matches(&handbook[i], search, search_lower.as_str(), key.as_str(), en) {
            let ghost pre = out@;
            out.push(clone_element(&handbook[i]));
            proof {
                assert(spec_find(whole.skip(i as int), raw, low, lk, enf, b) =~= seq![
                    whole[i as int],
                ] + spec_find(whole.skip(i + 1), raw, low, lk, enf, (b - 1) as nat));
                assert(gms_model(out@) =~= gms_model(pre) + seq![gm_model(handbook@[i as int])]);
                assert(gms_model(pre) + spec_find(whole.skip(i as int), raw, low, lk, enf, b)
                    =~= gms_model(out@) + spec_find(
                    whole.skip(i + 1),
                    raw,
                    low,
                    lk,
                    enf,
                    (b - 1) as nat,
                ));
            }
        } else {
            proof {
                assert(spec_find(whole.skip(i as int), raw, low, lk, enf, b) == spec_find(
                    whole.skip(i + 1),
                    raw,
                    low,
                    lk,
                    enf,
                    b,
                ));
            }
        }
        i += 1;
    }
    proof {
        if i == n {
            assert(whole.skip(i as int) =~= Seq::<GmElemModel>::empty());
            assert(spec_find(
                whole.skip(i as int),
                raw,
                low,
                lk,
                enf,
                (cap - out@.len()) as nat,
            ) =~= Seq::<GmElemModel>::empty());
        } else {
            assert(out@.len() == cap);
            assert(spec_find(whole.skip(i as int), raw, low, lk, enf, 0nat) =~= Seq::<
                GmElemModel,
            >::empty());
        }
        assert(gms_model(out@) + Seq::<GmElemModel>::empty() =~= gms_model(out@));
    }
    Ok(out)
}

/// A line of raw text, with one trailing carriage return removed, as
/// line-oriented reading does.
pub open spec fn spec_strip_cr(s: Seq<char>) -> Seq<char> {
    if s.len() > 0 && s.last() == '\r' {
        s.drop_last()
    } else {
        s
    }
}

/// The lines of a text: split at each newline, a final fragment
/// without one included, and nothing after a trailing newline.
pub open spec fn spec_lines(s: Seq<char>) -> Seq<Seq<char>>
    decreases s.len(),
{
    if s.len() == 0 {
        Seq::empty()
    } else {
        let k = spec_first_char(s, '\n');
        if 0 <= k < s.len() {
            seq![spec_strip_cr(s.take(k))] + spec_lines(s.skip(k + 1))
        } else {
            seq![spec_strip_cr(s)]
        }
    }
}

/// Splits text into lines, stripping one carriage return from each
/// line end.
#[verifier::rlimit(30)]
pub fn split_lines(s: &str) -> (r: Vec<String>)
    ensures
        r@.map_values(|x: String| x@) == spec_lines(s@),
{
    let mut out: Vec<String> = Vec::new();
    let n = s.unicode_len();
    let mut pos: usize = 0;
    let ghost whole: Seq<char> = s@;
    proof {
        assert(whole.skip(0) =~= whole);
        assert(out@.map_values(|x: String| x@) =~= Seq::<Seq<char>>::empty());
    }
    while pos < n
        invariant
            pos <= n,
            n == s@.len(),
            whole == s@,
            spec_lines(whole) == out@.map_values(|x: String| x@) + spec_lines(
                whole.skip(pos as int),
            ),
        decreases n - pos,
    {
        let ghost rest: Seq<char> = whole.skip(pos as int);
        let (line_end, next_pos): (usize, usize) = match find_char(s, pos, '\n') {
            Some(k) => (k, k + 1),
            None => (n, n),
        };
        let mut end = line_end;
        if end > pos && s.get_char(end - 1) == '\r' {
            end = end - 1;
        }
        let piece = s.substring_char(pos, end).to_owned();
        proof {
            lemma_first_char(rest, '\n');
            assert(rest.len() > 0);
            if line_end < n {
                assert(rest[line_end - pos] == '\n');
                assert(forall|j: int| 0 <= j < line_end - pos ==> rest[j] != '\n') by {
                    assert(forall|j: int|
                        0 <= j < line_end - pos ==> rest[j] == whole[pos + j]);
                }
                assert(spec_first_char(rest, '\n') == line_end - pos) by {
                    let k = spec_first_char(rest, '\n');
                    if k == -1 {
                        assert(rest[line_end - pos] != '\n');
                    } else {
                        if k < line_end - pos {
                            assert(rest[k] == '\n');
                        }
                        if k > line_end - pos {
                            assert(rest[line_end - pos] != '\n');
                        }
                    }
                }
                assert(rest.take(line_end - pos) =~= whole.subrange(
                    pos as int,
                    line_end as int,
                ));
                assert(rest.skip(line_end - pos + 1) =~= whole.skip(next_pos as int));
            } else {
                assert(forall|j: int| 0 <= j < rest.len() ==> rest[j] != '\n') by {
                    assert(forall|j: int| 0 <= j < rest.len() ==> rest[j] == whole[pos + j]);
                }
                assert(spec_first_char(rest, '\n') == -1) by {
                    let k = spec_first_char(rest, '\n');
                    if k >= 0 {
                        assert(rest[k] == '\n');
                    }
                }
                assert(rest =~= whole.subrange(pos as int, line_end as int));
            }
            let base = whole.subrange(pos as int, line_end as int);
            assert(piece@ == spec_strip_cr(base)) by {
                if line_end > pos && whole[line_end - 1] == '\r' {
                    assert(base.last() == '\r');
                    assert(piece@ =~= base.drop_last());
                } else {
                    if base.len() > 0 {
                        assert(base.last() == whole[line_end - 1]);
                    }
                    assert(piece@ =~= base);
                }
            }
            if line_end < n {
                assert(spec_lines(rest) =~= seq![spec_strip_cr(base)] + spec_lines(
                    whole.skip(next_pos as int),
                ));
            } else {
                assert(spec_lines(rest) =~= seq![spec_strip_cr(base)]);
            }
        }
        let ghost pre = out@;
        out.push(piece);
        proof {
            assert(out@.map_values(|x: String| x@) =~= pre.map_values(|x: String| x@) + seq![
                piece@,
            ]);
            if line_end == n {
                assert(whole.skip(n as int) =~= Seq::<char>::empty());
                assert(spec_lines(Seq::<char>::empty()) =~= Seq::<Seq<char>>::empty());
            }
            assert(pre.map_values(|x: String| x@) + spec_lines(rest) =~= out@.map_values(
                |x: String| x@,
            ) + spec_lines(whole.skip(next_pos as int)));
        }
        pos = next_pos;
    }
    proof {
        assert(whole.skip(n as int) =~= Seq::<char>::empty());
        assert(spec_lines(Seq::<char>::empty()) =~= Seq::<Seq<char>>::empty());
        assert(out@.map_values(|x: String| x@) + Seq::<Seq<char>>::empty() =~= out@.map_values(
            |x: String| x@,
        ));
    }
    out
}

/// The new category a marker line sets, if the line is one: a leading
/// `// ` or `# ` marker, repeated markers stripped.
pub open spec fn spec_txt_line_category(line: Seq<char>) -> Option<Seq<char>> {
    if is_prefix("// "@, line) {
        Some(spec_strip_all(line, "// "@))
    } else if is_prefix("# "@, line) {
        Some(spec_strip_all(line, "# "@))
    } else {
        None
    }
}

/// The entry one data line denotes, given the colon position and the
/// current category text: the id before the colon, zero when it is no
/// number, and the trimmed name after it.
pub open spec fn spec_txt_element(line: Seq<char>, k: int, cat: Seq<char>) -> GmElemModel {
    GmElemModel {
        id: match spec_parse_i64(spec_trim(line.take(k))) {
            Some(v) => v as int,
            None => 0,
        },
        name: NameModel::Plain(spec_trim(line.skip(k + 1))),
        description: None,
        image: None,
        category: match crate::gm::spec_gm_category_from_str(cat) {
            Some(c) => c,
            None => Category::Unknown,
        },
        rarity: None,
        commands: None,
        icon: None,
        gm_type: None,
    }
}

/// The entries a line list denotes, carrying the category text along:
/// marker lines change it, empty and colon-less lines are skipped, and
/// every other line contributes one entry.
pub open spec fn spec_parse_txt_lines(lines: Seq<Seq<char>>, cat: Seq<char>) -> Seq<GmElemModel>
    decreases lines.len(),
{
    if lines.len() == 0 {
        Seq::empty()
    } else {
        let line = lines[0];
        match spec_txt_line_category(line) {
            Some(c2) => spec_parse_txt_lines(lines.skip(1), c2),
            None => if line.len() == 0 {
                spec_parse_txt_lines(lines.skip(1), cat)
            } else {
                let k = spec_first_char(line, ':');
                if k < 0 {
                    spec_parse_txt_lines(lines.skip(1), cat)
                } else {
                    seq![spec_txt_element(line, k, cat)] + spec_parse_txt_lines(
                        lines.skip(1),
                        cat,
                    )
                }
            },
        }
    }
}

/// Parses a line-oriented handbook source: `// ` or `# ` marker lines
/// set the category of the entries that follow; every `id: name` line
/// becomes one entry.
pub fn parse_txt_file(content: &str) -> (r: Vec<GmhandbookElement>)
    ensures
        gms_model(r@) == spec_parse_txt_lines(spec_lines(content@), Seq::empty()),
{
    let lines = split_lines(content);
    let ghost lviews: Seq<Seq<char>> = lines@.map_values(|x: String| x@);
    let n = lines.len();
    let mut out: Vec<GmhandbookElement> = Vec::new();
    let mut current_category: String = String::new();
    let mut i: usize = 0;
    proof {
        assert(lviews.skip(0) =~= lviews);
        assert(gms_model(out@) =~= Seq::<GmElemModel>::empty());
    }
    while i < n
        invariant
            i <= n,
            n == lines@.len(),
            lviews == lines@.map_values(|x: String| x@),
            spec_parse_txt_lines(lviews, Seq::empty()) == gms_model(out@)
                + spec_parse_txt_lines(lviews.skip(i as int), current_category@),
        decreases n - i,
    {
        proof {
            assert(lviews.skip(i as int)[0] == lviews[i as int]);
            assert(lviews.skip(i as int).skip(1) =~= lviews.skip(i + 1));
            assert(lviews[i as int] == lines@[i as int]@);
        }
        let line = &lines[i];
        proof {
            reveal_strlit("// ");
            reveal_strlit("# ");
        }
        if str_starts_with(line.as_str(), "// ") {
            current_category = strip_all_prefix(line.as_str(), "// ");
        } else if str_starts_with(line.as_str(), "# ") {
            current_category = strip_all_prefix(line.as_str(), "# ");
        } else if !line.as_str().is_empty() {
            let nl = line.as_str().unicode_len();
            match find_char(line.as_str(), 0, ':') {
                Some(k) => {
                    let ghost lv: Seq<char> = lines@[i as int]@;
                    proof {
                        lemma_first_char(lv, ':');
                        assert(spec_first_char(lv, ':') == k as int) by {
                            let f = spec_first_char(lv, ':');
                            if f == -1 {
                                assert(lv[k as int] != ':');
                            } else {
                                if f < k as int {
                                    assert(lv[f] == ':');
                                }
                                if f > k as int {
                                    assert(lv[k as int] != ':');
                                }
                            }
                        }
                    }
                    let before = line.as_str().substring_char(0, k);
                    let idtext = str_trim(before);
                    let id: i64 = match parse_i64(idtext.as_str()) {
                        Some(v) => v,
                        None => 0,
                    };
                    let after = line.as_str().substring_char(k + 1, nl);
                    let name = str_trim(after);
                    let category = match Category::from_str(current_category.as_str()) {
                        Some(c) => c,
                        None => Category::Unknown,
                    };
                    let elem = GmhandbookElement {
                        id,
                        name: NameUnion::String(name),
                        description: None,
                        image: None,
                        category,
                        rarity: None,
                        commands: None,
                        icon: None,
                        gmhandbook_type: None,
                    };
                    proof {
                        assert(before@ =~= lv.take(k as int));
                        assert(after@ =~= lv.skip(k + 1));
                        assert(gm_model(elem) =~~= spec_txt_element(
                            lv,
                            k as int,
                            current_category@,
                        ));
                    }
                    let ghost pre = out@;
                    out.push(elem);
                    proof {
                        assert(gms_model(out@) =~= gms_model(pre) + seq![gm_model(elem)]);
                    }
                },
                None => {
                    proof {
                        let ghost lv: Seq<char> = lines@[i as int]@;
                        lemma_first_char(lv, ':');
                        assert(spec_first_char(lv, ':') < 0) by {
                            let f = spec_first_char(lv, ':');
                            if f >= 0 {
                                assert(lv[f] == ':');
                            }
                        }
                    }
                },
            }
        }
        i += 1;
    }
    proof {
        assert(lviews.skip(n as int) =~= Seq::<Seq<char>>::empty());
        assert(gms_model(out@) + Seq::<GmElemModel>::empty() =~= gms_model(out@));
    }
    out
}

/// The distinct category names of a handbook, in first-appearance
/// order.
pub open spec fn spec_category_names(s: Seq<GmElemModel>) -> Seq<Seq<char>>
    decreases s.len(),
{
    if s.len() == 0 {
        Seq::empty()
    } else {
        let prev = spec_category_names(s.drop_last());
        let nm = spec_gm_category_name(s.last().category);
        if prev.contains(nm) {
            prev
        } else {
            prev.push(nm)
        }
    }
}

/// Whether a string list holds given characters.
fn vec_contains_str(v: &Vec<String>, s: &str) -> (r: bool)
    ensures
        r == v@.map_values(|x: String| x@).contains(s@),
{
    let n = v.len();
    let mut i: usize = 0;
    while i < n
        invariant
            i <= n,
            n == v@.len(),
            forall|j: int| 0 <= j < i ==> (#[trigger] v@[j])@ != s@,
        decreases n - i,
    {
        if str_eq(v[i].as_str(), s) {
            proof {
                assert(v@.map_values(|x: String| x@)[i as int] == s@);
            }
            return true;
        }
        i += 1;
    }
    proof {
        if v@.map_values(|x: String| x@).contains(s@) {
            let m = v@.map_values(|x: String| x@);
            let j = choose|j: int| 0 <= j < m.len() && m[j] == s@;
            assert(v@[j]@ == s@);
        }
    }
    false
}

/// The distinct category names of a loaded handbook, each once, in
/// the order first seen.
pub fn get_category(handbook: &Vec<GmhandbookElement>) -> (r: Vec<String>)
    ensures
        r@.map_values(|x: String| x@) == spec_category_names(gms_model(handbook@)),
{
    let n = handbook.len();
    let mut out: Vec<String> = Vec::new();
    let mut i: usize = 0;
    proof {
        assert(gms_model(handbook@).take(0) =~= Seq::<GmElemModel>::empty());
        assert(out@.map_values(|x: String| x@) =~= Seq::<Seq<char>>::empty());
    }
    while i < n
        invariant
            i <= n,
            n == handbook@.len(),
            out@.map_values(|x: String| x@) == spec_category_names(
                gms_model(handbook@).take(i as int),
            ),
        decreases n - i,
    {
        proof {
            assert(gms_model(handbook@).take(i + 1).drop_last() =~= gms_model(
                handbook@,
            ).take(i as int));
            assert(gms_model(handbook@).take(i + 1).last() == gm_model(handbook@[i as int]));
        }
        let nm = handbook[i].category.name();
        if !vec_contains_str(&out, nm.as_str()) {
            let ghost pre = out@;
            out.push(nm);
            proof {
                assert(out@.map_values(|x: String| x@) =~= pre.map_values(|x: String| x@).push(
                    nm@,
                ));
            }
        }
        i += 1;
    }
    proof {
        assert(gms_model(handbook@).take(n as int) =~= gms_model(handbook@));
    }
    out
}

} // verus!
