//! Small shared utilities: the error type for table loading and the
//! human-readable file-size formatter.

use vstd::prelude::*;
use vstd::string::*;

use std::collections::HashMap;

use crate::json::{json_doc_of, parse_json, JsonValue};
use crate::text::{digit_char, i64_string, is_prefix, is_suffix, parse_i64, spec_idec,
    spec_parse_i64, spec_udec, str_ends_with, str_starts_with, u64_string};

verus! {

broadcast use vstd::std_specs::hash::group_hash_axioms;

/// Why loading a table from text failed: the file could not be read, or
/// its content was not the expected JSON shape.
#[derive(Debug)]
pub enum TextMapError {
    IoError(String),
    JsonError(String),
}

impl TextMapError {
    /// The human-readable message for this error.
    pub fn message(&self) -> (r: String)
        ensures
            match self {
                TextMapError::IoError(e) => r@ == "IO error: "@ + e@,
                TextMapError::JsonError(e) => r@ == "JSON error: "@ + e@,
            },
    {
        match self {
            TextMapError::IoError(e) => {
                let mut s = String::from_str("IO error: ");
                s.append(e.as_str());
                s
            },
            TextMapError::JsonError(e) => {
                let mut s = String::from_str("JSON error: ");
                s.append(e.as_str());
                s
            },
        }
    }
}

/// The hash that a localization key names, when the key is the
/// canonical decimal rendering of it; `"007"` or `"+7"` name nothing,
/// matching a join that renders hashes and compares the text.
pub open spec fn canonical_key(k: Seq<char>) -> Option<i64> {
    match spec_parse_i64(k) {
        Some(h) => if spec_idec(h as int) == k {
            Some(h)
        } else {
            None
        },
        None => None,
    }
}

/// A key that is the canonical rendering of a hash always names that
/// hash: looking a hash up after a load hits exactly the entries whose
/// keys spell it.
pub proof fn lemma_canonical_key_roundtrip(h: i64)
    ensures
        canonical_key(spec_idec(h as int)) == Some(h),
{
    crate::text::lemma_parse_of_idec(h as int);
}

/// Whether every value of a parsed object is a string, as a flat
/// localization table demands.
pub open spec fn all_values_strings(fields: Seq<(String, JsonValue)>) -> bool {
    forall|i: int| 0 <= i < fields.len() ==> #[trigger] fields[i].1 is Str
}

/// The mapping that a field list denotes: each canonically keyed string
/// entry in order, later entries overriding earlier ones.
pub open spec fn spec_tm_map(fields: Seq<(String, JsonValue)>) -> Map<i64, String>
    decreases fields.len(),
{
    if fields.len() == 0 {
        Map::empty()
    } else {
        let prev = spec_tm_map(fields.drop_last());
        match fields.last().1 {
            JsonValue::Str(s) => match canonical_key(fields.last().0@) {
                Some(h) => prev.insert(h, s),
                None => prev,
            },
            _ => prev,
        }
    }
}

/// The text a table model resolves a hash to, if any.
pub open spec fn tm_lookup(tm: Map<i64, String>, h: i64) -> Option<Seq<char>> {
    if tm.contains_key(h) {
        Some(tm[h]@)
    } else {
        None
    }
}

/// A per-language localization table: numeric hash to localized text.
/// Loaded whole from one parsed JSON object, then only read.
pub struct TextMap {
    entries: HashMap<i64, String>,
}

impl View for TextMap {
    type V = Map<i64, String>;

    closed spec fn view(&self) -> Map<i64, String> {
        self.entries@
    }
}

impl TextMap {
    /// An empty table.
    pub fn new() -> (r: TextMap)
        ensures
            r@ == Map::<i64, String>::empty(),
    {
        TextMap { entries: HashMap::new() }
    }

    /// Adds or replaces one entry.
    pub fn insert(&mut self, hash: i64, text: String)
        ensures
            final(self)@ == old(self)@.insert(hash, text),
    {
        self.entries.insert(hash, text);
    }

    /// The text for a hash; a miss is an ordinary absence, never an
    /// error.
    pub fn get(&self, hash: i64) -> (r: Option<&String>)
        ensures
            match r {
                Some(s) => self@.contains_key(hash) && self@[hash] == *s,
                None => !self@.contains_key(hash),
            },
    {
        self.entries.get(&hash)
    }

    /// The number of entries.
    pub fn len(&self) -> (r: usize)
        ensures
            r == self@.dom().len(),
    {
        self.entries.len()
    }

    /// Builds the table from a parsed JSON document.  The document must
    /// be an object whose values are all strings; otherwise the whole
    /// load fails, with no partial table.
    pub fn from_json(v: &JsonValue) -> (r: Result<TextMap, TextMapError>)
        ensures
            match r {
                Ok(tm) => {
                    &&& v matches JsonValue::Obj(fields) && all_values_strings(fields@)
                    &&& tm@ == spec_tm_map(v->Obj_0@)
                },
                Err(e) => {
                    &&& !(v matches JsonValue::Obj(fields) && all_values_strings(fields@))
                    &&& e is JsonError
                },
            },
    {
        let fields = match v {
            JsonValue::Obj(fields) => fields,
            _ => {
                return Err(
                    TextMapError::JsonError(
                        String::from_str("expected an object of strings"),
                    ),
                );
            },
        };
        let n = fields.len();
        let mut tm = TextMap::new();
        let mut i: usize = 0;
        proof {
            assert(fields@.take(0) =~= Seq::<(String, JsonValue)>::empty());
        }
        while i < n
            invariant
                i <= n,
                n == fields@.len(),
                v is Obj && v->Obj_0@ == fields@,
                all_values_strings(fields@.take(i as int)),
                tm@ == spec_tm_map(fields@.take(i as int)),
            decreases n - i,
        {
            proof {
                assert(fields@.take(i + 1).drop_last() =~= fields@.take(i as int));
                assert(fields@.take(i + 1).last() == fields@[i as int]);
            }
            let s = match &fields[i].1 {
                JsonValue::Str(s) => s,
                _ => {
                    proof {
                        assert(!(fields@[i as int].1 is Str));
                        assert(!all_values_strings(fields@));
                    }
                    return Err(
                        TextMapError::JsonError(
                            String::from_str("expected an object of strings"),
                        ),
                    );
                },
            };
            let key = &fields[i].0;
            match parse_i64(key.as_str()) {
                Some(h) => {
                    let canon = i64_string(h);
                    if crate::text::str_eq(key.as_str(), canon.as_str()) {
                        tm.insert(h, s.clone());
                    }
                },
                None => {},
            }
            i += 1;
        }
        proof {
            assert(fields@.take(i as int) =~= fields@);
        }
        Ok(tm)
    }
}

/// Parses a whole localization file's text into a table: the load
/// succeeds exactly when the text is valid JSON whose document is an
/// object of strings, and then the table is that document's mapping;
/// otherwise nothing is loaded.
pub fn parse_text_map(content: &str) -> (r: Result<TextMap, TextMapError>)
    ensures
        match r {
            Ok(tm) => json_doc_of(content@) matches Some(v) && v is Obj && all_values_strings(
                v->Obj_0@,
            ) && tm@ == spec_tm_map(v->Obj_0@),
            Err(e) => e is JsonError && !(json_doc_of(content@) matches Some(v) && v is Obj
                && all_values_strings(v->Obj_0@)),
        },
{
    match parse_json(content) {
        Ok(v) => {
            proof {
                assert(json_doc_of(content@) == Some(v));
            }
            match TextMap::from_json(&v) {
                Ok(tm) => Ok(tm),
                Err(e) => Err(e),
            }
        },
        Err(e) => Err(TextMapError::JsonError(e)),
    }
}

/// One kibibyte, mebibyte and gibibyte, as the formatter's thresholds.
pub const KB: u64 = 1024;

pub const MB: u64 = 1048576;

pub const GB: u64 = 1073741824;

/// A size scaled into hundredths of a unit, rounded to nearest with
/// ties to even, as the standard floating-point formatter rounds.
pub open spec fn rounded_centi(size: nat, unit: nat) -> nat
    recommends
        unit > 0,
{
    let n = size * 100;
    let q = n / unit;
    let r = n % unit;
    if 2 * r > unit {
        q + 1
    } else if 2 * r < unit {
        q
    } else if q % 2 == 0 {
        q
    } else {
        q + 1
    }
}

/// A two-digit rendering of a value below one hundred, zero-padded.
pub open spec fn spec_two_frac(c: nat) -> Seq<char> {
    if c < 10 {
        seq!['0', digit_char(c as int)]
    } else {
        spec_udec(c)
    }
}

/// The whole and fractional part of a scaled size, as `"w.ff"`.
pub open spec fn spec_scaled(size: nat, unit: nat) -> Seq<char>
    recommends
        unit > 0,
{
    let q = rounded_centi(size, unit);
    spec_udec(q / 100) + seq!['.'] + spec_two_frac(q % 100)
}

/// The human-readable form of a byte count: plain bytes below one
/// kibibyte, otherwise two decimals of the largest applicable binary
/// unit.
pub open spec fn spec_format_size(size: nat) -> Seq<char> {
    if size >= GB {
        spec_scaled(size, GB as nat) + " GB"@
    } else if size >= MB {
        spec_scaled(size, MB as nat) + " MB"@
    } else if size >= KB {
        spec_scaled(size, KB as nat) + " KB"@
    } else {
        spec_udec(size) + " bytes"@
    }
}

/// Renders a value below one hundred as exactly two digits.
fn two_frac(c: u64) -> (s: String)
    requires
        c < 100,
    ensures
        s@ == spec_two_frac(c as nat),
{
    if c < 10 {
        let mut s = String::from_str("0");
        let d = u64_string(c);
        s.append(d.as_str());
        proof {
            reveal_strlit("0");
            assert(s@ =~= spec_two_frac(c as nat));
        }
        s
    } else {
        u64_string(c)
    }
}

/// The scaled two-decimal rendering of `size` against `unit`.
fn scaled_string(size: u64, unit: u64) -> (s: String)
    requires
        unit >= 128,
    ensures
        s@ == spec_scaled(size as nat, unit as nat),
{
    let n: u128 = (size as u128) * 100;
    let q128: u128 = n / (unit as u128);
    let r128: u128 = n % (unit as u128);
    let rounded128: u128 = if 2 * r128 > unit as u128 {
        q128 + 1
    } else if 2 * r128 < unit as u128 {
        q128
    } else if q128 % 2 == 0 {
        q128
    } else {
        q128 + 1
    };
    proof {
        assert(q128 <= n);
        assert(rounded128 == rounded_centi(size as nat, unit as nat));
    }
    let rounded: u64 = (rounded128 % 18446744073709551616u128) as u64;
    proof {
        assert(size * 100 <= u64::MAX * 100);
        assert(rounded128 < 18446744073709551616u128) by {
            assert(q128 * (unit as int) <= n) by {
                vstd::arithmetic::div_mod::lemma_fundamental_div_mod(
                    n as int,
                    unit as int,
                );
                vstd::arithmetic::mul::lemma_mul_is_commutative(
                    unit as int,
                    q128 as int,
                );
            }
            assert(q128 * 128 <= q128 * (unit as int)) by (nonlinear_arith)
                requires
                    q128 >= 0,
                    unit >= 128,
            ;
            assert(q128 * 128 <= n);
        };
        assert(rounded == rounded_centi(size as nat, unit as nat));
    }
    let mut s = u64_string(rounded / 100);
    let dot = String::from_str(".");
    s.append(dot.as_str());
    let frac = two_frac(rounded % 100);
    s.append(frac.as_str());
    proof {
        reveal_strlit(".");
        assert(s@ =~= spec_scaled(size as nat, unit as nat));
    }
    s
}

/// Formats a byte count for humans: `"0 bytes"`, `"1.46 KB"`, `"1.00 MB"`,
/// `"1.40 GB"`, with binary thresholds and two-decimal precision above
/// one kibibyte.
pub fn format_file_size(size: u64) -> (s: String)
    ensures
        s@ == spec_format_size(size as nat),
{
    if size >= GB {
        let mut s = scaled_string(size, GB);
        s.append(" GB");
        s
    } else if size >= MB {
        let mut s = scaled_string(size, MB);
        s.append(" MB");
        s
    } else if size >= KB {
        let mut s = scaled_string(size, KB);
        s.append(" KB");
        s
    } else {
        let mut s = u64_string(size);
        s.append(" bytes");
        s
    }
}

/// The language label inside a localization file name: the middle of
/// `TextMap<LABEL>.json`, for names of that shape.
pub open spec fn spec_text_map_label(name: Seq<char>) -> Option<Seq<char>> {
    if name.len() >= 12 && is_prefix("TextMap"@, name) && is_suffix(".json"@, name) {
        Some(name.subrange(7, name.len() - 5))
    } else {
        None
    }
}

/// Reads the language label out of a localization file name, if the
/// name has the `TextMap<LABEL>.json` shape.
pub fn text_map_label(name: &str) -> (r: Option<String>)
    ensures
        match r {
            Some(l) => spec_text_map_label(name@) == Some(l@),
            None => spec_text_map_label(name@) is None,
        },
{
    proof {
        reveal_strlit("TextMap");
        reveal_strlit(".json");
    }
    let n = name.unicode_len();
    if n >= 12 && str_starts_with(name, "TextMap") && str_ends_with(name, ".json") {
        Some(name.substring_char(7, n - 5).to_owned())
    } else {
        None
    }
}

} // verus!
