//! String helpers shared by the whole library: decimal rendering and
//! parsing of integers, and character-level comparison of `&str` values.

use vstd::prelude::*;
use vstd::string::*;

verus! {

/// The character for one decimal digit.
pub open spec fn digit_char(d: int) -> char {
    if d == 0 {
        '0'
    } else if d == 1 {
        '1'
    } else if d == 2 {
        '2'
    } else if d == 3 {
        '3'
    } else if d == 4 {
        '4'
    } else if d == 5 {
        '5'
    } else if d == 6 {
        '6'
    } else if d == 7 {
        '7'
    } else if d == 8 {
        '8'
    } else {
        '9'
    }
}

/// Decimal rendering of a natural number, without sign or padding.
pub open spec fn spec_udec(n: nat) -> Seq<char>
    decreases n,
{
    if n < 10 {
        seq![digit_char(n as int)]
    } else {
        spec_udec(n / 10) + seq![digit_char((n % 10) as int)]
    }
}

/// Decimal rendering of an integer: a minus sign before the magnitude
/// when negative.
pub open spec fn spec_idec(n: int) -> Seq<char> {
    if n < 0 {
        seq!['-'] + spec_udec((-n) as nat)
    } else {
        spec_udec(n as nat)
    }
}

/// A one-character string for a digit value.
fn digit_str(d: u64) -> (s: String)
    requires
        d < 10,
    ensures
        s@ =~= seq![digit_char(d as int)],
{
    let s: &str = if d == 0 {
        "0"
    } else if d == 1 {
        "1"
    } else if d == 2 {
        "2"
    } else if d == 3 {
        "3"
    } else if d == 4 {
        "4"
    } else if d == 5 {
        "5"
    } else if d == 6 {
        "6"
    } else if d == 7 {
        "7"
    } else if d == 8 {
        "8"
    } else {
        "9"
    };
    proof {
        reveal_strlit("0");
        reveal_strlit("1");
        reveal_strlit("2");
        reveal_strlit("3");
        reveal_strlit("4");
        reveal_strlit("5");
        reveal_strlit("6");
        reveal_strlit("7");
        reveal_strlit("8");
        reveal_strlit("9");
    }
    s.to_owned()
}

/// Renders an unsigned number in decimal.
pub fn u64_string(n: u64) -> (s: String)
    ensures
        s@ == spec_udec(n as nat),
    decreases n,
{
    if n < 10 {
        let s = digit_str(n);
        proof {
            assert(s@ =~= spec_udec(n as nat));
        }
        s
    } else {
        let mut s = u64_string(n / 10);
        let d = digit_str(n % 10);
        s.append(d.as_str());
        proof {
            assert(s@ =~= spec_udec(n as nat));
        }
        s
    }
}

/// Renders a signed number in decimal.
pub fn i64_string(n: i64) -> (s: String)
    ensures
        s@ == spec_idec(n as int),
{
    if n >= 0 {
        u64_string(n as u64)
    } else {
        let mag: u64 = if n == i64::MIN {
            9223372036854775808u64
        } else {
            (-n) as u64
        };
        let mut s = String::from_str("-");
        let m = u64_string(mag);
        s.append(m.as_str());
        proof {
            reveal_strlit("-");
            assert(s@ =~= spec_idec(n as int));
        }
        s
    }
}

/// The value of one decimal digit character, or -1 for any other character.
pub open spec fn digit_val(c: char) -> int {
    if c == '0' {
        0
    } else if c == '1' {
        1
    } else if c == '2' {
        2
    } else if c == '3' {
        3
    } else if c == '4' {
        4
    } else if c == '5' {
        5
    } else if c == '6' {
        6
    } else if c == '7' {
        7
    } else if c == '8' {
        8
    } else if c == '9' {
        9
    } else {
        -1
    }
}

/// Whether every character of a sequence is a decimal digit.
pub open spec fn all_digits(s: Seq<char>) -> bool {
    forall|i: int| 0 <= i < s.len() ==> digit_val(s[i]) >= 0
}

/// The numeric value of a digit sequence, most significant first.
pub open spec fn digits_val(s: Seq<char>) -> int
    decreases s.len(),
{
    if s.len() == 0 {
        0
    } else {
        digits_val(s.drop_last()) * 10 + digit_val(s.last())
    }
}

/// What `i64::from_str` accepts and returns: an optional single sign,
/// then at least one digit, with the value in range.
pub open spec fn spec_parse_i64(s: Seq<char>) -> Option<i64> {
    if s.len() > 0 && s[0] == '-' {
        let d = s.skip(1);
        if d.len() > 0 && all_digits(d) && -digits_val(d) >= i64::MIN {
            Some((-digits_val(d)) as i64)
        } else {
            None
        }
    } else {
        let d = if s.len() > 0 && s[0] == '+' {
            s.skip(1)
        } else {
            s
        };
        if d.len() > 0 && all_digits(d) && digits_val(d) <= i64::MAX {
            Some(digits_val(d) as i64)
        } else {
            None
        }
    }
}

proof fn lemma_digits_val_nonneg(s: Seq<char>)
    requires
        all_digits(s),
    ensures
        digits_val(s) >= 0,
    decreases s.len(),
{
    if s.len() > 0 {
        assert(all_digits(s.drop_last()));
        lemma_digits_val_nonneg(s.drop_last());
    }
}

/// Extending a digit sequence by one digit multiplies its value by ten
/// and never decreases it.
proof fn lemma_digits_val_step(s: Seq<char>, i: int)
    requires
        all_digits(s),
        0 <= i < s.len(),
    ensures
        digits_val(s.take(i + 1)) == digits_val(s.take(i)) * 10 + digit_val(s[i]),
        digits_val(s.take(i + 1)) >= digits_val(s.take(i)),
{
    assert(s.take(i + 1).drop_last() =~= s.take(i));
    assert(all_digits(s.take(i)));
    lemma_digits_val_nonneg(s.take(i));
}

/// The value of a digit sequence only grows as further digits follow.
proof fn lemma_digits_val_prefix_le(s: Seq<char>, i: int)
    requires
        all_digits(s),
        0 <= i <= s.len(),
    ensures
        digits_val(s.take(i)) <= digits_val(s),
    decreases s.len() - i,
{
    if i < s.len() {
        lemma_digits_val_step(s, i);
        lemma_digits_val_prefix_le(s, i + 1);
    } else {
        assert(s.take(i) =~= s);
    }
}

/// A rendered natural number consists of digits and reads back to itself.
pub proof fn lemma_udec_val(n: nat)
    ensures
        all_digits(spec_udec(n)),
        digits_val(spec_udec(n)) == n,
        spec_udec(n).len() >= 1,
    decreases n,
{
    if n < 10 {
        assert(digits_val(spec_udec(n)) == digits_val(spec_udec(n).drop_last()) * 10 + digit_val(
            spec_udec(n).last(),
        ));
        assert(spec_udec(n).drop_last() =~= Seq::<char>::empty());
    } else {
        lemma_udec_val(n / 10);
        let s = spec_udec(n);
        assert(s.drop_last() =~= spec_udec(n / 10));
        assert(s.last() == digit_char((n % 10) as int));
        assert(digits_val(s) == (n / 10) * 10 + (n % 10));
        assert((n / 10) * 10 + (n % 10) == n) by {
            vstd::arithmetic::div_mod::lemma_fundamental_div_mod(n as int, 10);
        }
    }
}

/// Parsing the decimal rendering of a value in `i64` range gives the
/// value back.
pub proof fn lemma_parse_of_idec(v: int)
    requires
        i64::MIN <= v <= i64::MAX,
    ensures
        spec_parse_i64(spec_idec(v)) == Some(v as i64),
{
    if v < 0 {
        lemma_udec_val((-v) as nat);
        let s = spec_idec(v);
        assert(s[0] == '-');
        assert(s.skip(1) =~= spec_udec((-v) as nat));
    } else {
        lemma_udec_val(v as nat);
        let s = spec_idec(v);
        assert(digit_val(s[0]) >= 0);
        assert(s[0] != '-' && s[0] != '+');
    }
}

/// Parses a string as `i64::from_str` does: an optional `+` or `-`,
/// then decimal digits; anything else, or a value out of range, is `None`.
pub fn parse_i64(s: &str) -> (r: Option<i64>)
    ensures
        r == spec_parse_i64(s@),
{
    let n = s.unicode_len();
    if n == 0 {
        return None;
    }
    let first = s.get_char(0);
    let neg = first == '-';
    let signed = neg || first == '+';
    let start: usize = if signed {
        1
    } else {
        0
    };
    if n == start {
        return None;
    }
    let ghost d: Seq<char> = if signed {
        s@.skip(1)
    } else {
        s@
    };
    let mut acc: u64 = 0;
    let mut i: usize = start;
    // The magnitude bound: 2^63 for negative values, 2^63 - 1 otherwise.
    let bound: u64 = if neg {
        9223372036854775808u64
    } else {
        9223372036854775807u64
    };
    while i < n
        invariant
            start <= i <= n,
            n == s@.len(),
            start == 0 || start == 1,
            start == 1 ==> signed,
            signed ==> start == 1 && (s@[0] == '-' || s@[0] == '+'),
            !signed ==> start == 0 && s@[0] != '-' && s@[0] != '+',
            neg <==> s@[0] == '-',
            d == (if signed {
                s@.skip(1)
            } else {
                s@
            }),
            n - start == d.len(),
            bound == (if neg {
                9223372036854775808u64
            } else {
                9223372036854775807u64
            }),
            all_digits(d.take(i - start)),
            acc == digits_val(d.take(i - start)),
            acc <= bound,
        decreases n - i,
    {
        let c = s.get_char(i);
        let dv: u64 = match c {
            '0' => 0,
            '1' => 1,
            '2' => 2,
            '3' => 3,
            '4' => 4,
            '5' => 5,
            '6' => 6,
            '7' => 7,
            '8' => 8,
            '9' => 9,
            _ => {
                proof {
                    assert(d[i - start] == s@[i as int]);
                    assert(digit_val(d[i - start]) < 0);
                }
                return None;
            },
        };
        proof {
            assert(d[i - start] == s@[i as int]);
            assert(digit_val(d[i - start]) == dv as int);
            assert(d.take(i - start + 1).drop_last() =~= d.take(i - start));
        }
        if acc > (bound - dv) / 10 {
            // The digits seen so far already exceed the range; any further
            // digits only increase the value.
            proof {
                assert(all_digits(d.take(i - start + 1)));
                assert(digits_val(d.take(i - start + 1)) == acc * 10 + dv > bound);
                if all_digits(d) {
                    lemma_digits_val_prefix_le(d, i - start + 1);
                    assert(digits_val(d) > bound);
                }
            }
            return None;
        }
        acc = acc * 10 + dv;
        i += 1;
        proof {
            assert(d.take(i - start) =~= d.take(i - start - 1).push(d[i - start - 1]));
        }
    }
    proof {
        assert(d.take(i - start) =~= d);
    }
    if neg {
        if acc == 9223372036854775808u64 {
            Some(i64::MIN)
        } else {
            Some(-(acc as i64))
        }
    } else {
        Some(acc as i64)
    }
}

/// Whether two strings hold the same characters.  Works for any strings;
/// the check compares the UTF-8 bytes and carries equality back to the
/// character sequences.
pub fn str_eq(a: &str, b: &str) -> (r: bool)
    ensures
        r <==> a@ == b@,
{
    let ab = a.as_bytes();
    let bb = b.as_bytes();
    proof {
        vstd::utf8::encode_utf8_decode_utf8(a@);
        vstd::utf8::encode_utf8_decode_utf8(b@);
    }
    if ab.len() != bb.len() {
        return false;
    }
    let n = ab.len();
    let mut i: usize = 0;
    while i < n
        invariant
            n == ab@.len() == bb@.len(),
            ab@ == vstd::utf8::encode_utf8(a@),
            bb@ == vstd::utf8::encode_utf8(b@),
            vstd::utf8::decode_utf8(ab@) == a@,
            vstd::utf8::decode_utf8(bb@) == b@,
            i <= n,
            forall|j: int| 0 <= j < i ==> ab@[j] == bb@[j],
        decreases n - i,
    {
        if ab[i] != bb[i] {
            proof {
                if a@ == b@ {
                    assert(ab@ == vstd::utf8::encode_utf8(a@));
                    assert(bb@ == vstd::utf8::encode_utf8(b@));
                    assert(ab@ == bb@);
                }
            }
            return false;
        }
        i += 1;
    }
    proof {
        assert(ab@ =~= bb@);
    }
    true
}

/// ASCII lower-casing of one character; anything outside `A`..`Z` is kept.
pub open spec fn fold_char(c: char) -> char {
    if c == 'A' {
        'a'
    } else if c == 'B' {
        'b'
    } else if c == 'C' {
        'c'
    } else if c == 'D' {
        'd'
    } else if c == 'E' {
        'e'
    } else if c == 'F' {
        'f'
    } else if c == 'G' {
        'g'
    } else if c == 'H' {
        'h'
    } else if c == 'I' {
        'i'
    } else if c == 'J' {
        'j'
    } else if c == 'K' {
        'k'
    } else if c == 'L' {
        'l'
    } else if c == 'M' {
        'm'
    } else if c == 'N' {
        'n'
    } else if c == 'O' {
        'o'
    } else if c == 'P' {
        'p'
    } else if c == 'Q' {
        'q'
    } else if c == 'R' {
        'r'
    } else if c == 'S' {
        's'
    } else if c == 'T' {
        't'
    } else if c == 'U' {
        'u'
    } else if c == 'V' {
        'v'
    } else if c == 'W' {
        'w'
    } else if c == 'X' {
        'x'
    } else if c == 'Y' {
        'y'
    } else if c == 'Z' {
        'z'
    } else {
        c
    }
}

/// ASCII lower-casing of a character sequence.
pub open spec fn ascii_lower(s: Seq<char>) -> Seq<char> {
    s.map_values(|c: char| fold_char(c))
}

/// Lower-cases one character as `fold_char` describes.
fn fold_char_exec(c: char) -> (r: char)
    ensures
        r == fold_char(c),
{
    match c {
        'A' => 'a',
        'B' => 'b',
        'C' => 'c',
        'D' => 'd',
        'E' => 'e',
        'F' => 'f',
        'G' => 'g',
        'H' => 'h',
        'I' => 'i',
        'J' => 'j',
        'K' => 'k',
        'L' => 'l',
        'M' => 'm',
        'N' => 'n',
        'O' => 'o',
        'P' => 'p',
        'Q' => 'q',
        'R' => 'r',
        'S' => 's',
        'T' => 't',
        'U' => 'u',
        'V' => 'v',
        'W' => 'w',
        'X' => 'x',
        'Y' => 'y',
        'Z' => 'z',
        _ => c,
    }
}

/// Whether two strings agree up to ASCII case.
pub fn str_eq_fold(a: &str, b: &str) -> (r: bool)
    ensures
        r <==> ascii_lower(a@) == ascii_lower(b@),
{
    let n = a.unicode_len();
    if n != b.unicode_len() {
        proof {
            assert(ascii_lower(a@).len() != ascii_lower(b@).len());
        }
        return false;
    }
    let mut i: usize = 0;
    while i < n
        invariant
            i <= n,
            n == a@.len() == b@.len(),
            forall|j: int| 0 <= j < i ==> fold_char(a@[j]) == fold_char(b@[j]),
        decreases n - i,
    {
        let ca = fold_char_exec(a.get_char(i));
        let cb = fold_char_exec(b.get_char(i));
        if ca != cb {
            proof {
                assert(ascii_lower(a@)[i as int] != ascii_lower(b@)[i as int]);
            }
            return false;
        }
        i += 1;
    }
    proof {
        assert(ascii_lower(a@) =~= ascii_lower(b@));
    }
    true
}

/// Whether a sequence is a prefix of another.
pub open spec fn is_prefix(p: Seq<char>, s: Seq<char>) -> bool {
    p.len() <= s.len() && s.take(p.len() as int) == p
}

/// Whether one string starts with another.
pub fn str_starts_with(s: &str, p: &str) -> (r: bool)
    ensures
        r <==> is_prefix(p@, s@),
{
    let np = p.unicode_len();
    let ns = s.unicode_len();
    if np > ns {
        return false;
    }
    let head = s.substring_char(0, np);
    str_eq(head, p)
}

/// Removes one leading occurrence of a prefix; a string that does not
/// start with it comes back whole.
pub fn strip_prefix(s: &str, p: &str) -> (r: String)
    ensures
        is_prefix(p@, s@) ==> r@ == s@.skip(p@.len() as int),
        !is_prefix(p@, s@) ==> r@ == s@,
{
    if str_starts_with(s, p) {
        let np = p.unicode_len();
        let ns = s.unicode_len();
        s.substring_char(np, ns).to_owned()
    } else {
        s.to_owned()
    }
}

/// Whether `sub` occurs contiguously inside `s`.
pub open spec fn contains_seq(s: Seq<char>, sub: Seq<char>) -> bool {
    exists|i: int|
        0 <= i <= s.len() - sub.len() && #[trigger] s.subrange(i, i + sub.len() as int) == sub
}

/// Whether the needle occurs as a substring of the haystack.
pub fn str_contains(s: &str, sub: &str) -> (r: bool)
    ensures
        r <==> contains_seq(s@, sub@),
{
    let ns = s.unicode_len();
    let nb = sub.unicode_len();
    if nb > ns {
        return false;
    }
    if nb == 0 {
        proof {
            assert(s@.subrange(0, 0 + sub@.len() as int) =~= sub@);
        }
        return true;
    }
    let mut i: usize = 0;
    while i <= ns - nb
        invariant
            ns == s@.len(),
            nb == sub@.len(),
            nb <= ns,
            1 <= nb,
            i <= ns - nb + 1,
            forall|k: int| 0 <= k < i ==> #[trigger] s@.subrange(k, k + sub@.len() as int) != sub@,
        decreases ns - i,
    {
        let piece = s.substring_char(i, i + nb);
        if str_eq(piece, sub) {
            return true;
        }
        i += 1;
    }
    false
}

/// Whether a character is ASCII whitespace, the kind that the text
/// formats handled here may carry around tokens.
pub open spec fn is_ws(c: char) -> bool {
    c == ' ' || c == '\t' || c == '\r' || c == '\n'
}

/// A sequence without its leading whitespace.
pub open spec fn spec_trim_front(s: Seq<char>) -> Seq<char>
    decreases s.len(),
{
    if s.len() > 0 && is_ws(s[0]) {
        spec_trim_front(s.skip(1))
    } else {
        s
    }
}

/// A sequence without its trailing whitespace.
pub open spec fn spec_trim_back(s: Seq<char>) -> Seq<char>
    decreases s.len(),
{
    if s.len() > 0 && is_ws(s.last()) {
        spec_trim_back(s.drop_last())
    } else {
        s
    }
}

/// A sequence without leading and trailing whitespace.
pub open spec fn spec_trim(s: Seq<char>) -> Seq<char> {
    spec_trim_back(spec_trim_front(s))
}

/// Removes leading and trailing ASCII whitespace.
pub fn str_trim(s: &str) -> (r: String)
    ensures
        r@ == spec_trim(s@),
{
    let n = s.unicode_len();
    proof {
        assert(s@.skip(0) =~= s@);
    }
    let mut i: usize = 0;
    while i < n && is_ws_exec(s.get_char(i))
        invariant
            i <= n,
            n == s@.len(),
            spec_trim_front(s@) == spec_trim_front(s@.skip(i as int)),
        decreases n - i,
    {
        proof {
            assert(s@.skip(i as int).skip(1) =~= s@.skip(i + 1));
        }
        i += 1;
    }
    proof {
        if i < n {
            assert(spec_trim_front(s@.skip(i as int)) == s@.skip(i as int));
        } else {
            assert(s@.skip(i as int) =~= Seq::<char>::empty());
        }
    }
    let ghost t: Seq<char> = s@.skip(i as int);
    proof {
        assert(t.take(n - i) =~= t);
    }
    let mut j: usize = n - i;
    while j > 0 && is_ws_exec(s.get_char(i + j - 1))
        invariant
            j <= n - i,
            i <= n,
            n == s@.len(),
            t == s@.skip(i as int),
            spec_trim_back(t) == spec_trim_back(t.take(j as int)),
        decreases j,
    {
        proof {
            assert(t.take(j as int).last() == s@[i + j - 1]);
            assert(t.take(j as int).drop_last() =~= t.take(j - 1));
        }
        j -= 1;
    }
    proof {
        if j > 0 {
            assert(t.take(j as int).last() == s@[i + j - 1]);
            assert(spec_trim_back(t.take(j as int)) == t.take(j as int));
        } else {
            assert(t.take(0) =~= Seq::<char>::empty());
        }
        assert(t.take(j as int) =~= s@.subrange(i as int, i + j));
    }
    s.substring_char(i, i + j).to_owned()
}

/// Whether a character is ASCII whitespace.
pub fn is_ws_exec(c: char) -> (r: bool)
    ensures
        r == is_ws(c),
{
    c == ' ' || c == '\t' || c == '\r' || c == '\n'
}

/// The first position of a character at or after `from`, if any.
pub fn find_char(s: &str, from: usize, c: char) -> (r: Option<usize>)
    requires
        from <= s@.len(),
    ensures
        match r {
            Some(i) => from <= i < s@.len() && s@[i as int] == c && forall|j: int|
                from <= j < i ==> s@[j] != c,
            None => forall|j: int| from <= j < s@.len() ==> s@[j] != c,
        },
{
    let n = s.unicode_len();
    let mut i: usize = from;
    while i < n
        invariant
            from <= i <= n,
            n == s@.len(),
            forall|j: int| from <= j < i ==> s@[j] != c,
        decreases n - i,
    {
        if s.get_char(i) == c {
            return Some(i);
        }
        i += 1;
    }
    None
}

/// The pieces joined by a separator.
pub open spec fn spec_join(v: Seq<Seq<char>>, sep: Seq<char>) -> Seq<char>
    decreases v.len(),
{
    if v.len() == 0 {
        Seq::empty()
    } else if v.len() == 1 {
        v[0]
    } else {
        spec_join(v.drop_last(), sep) + sep + v.last()
    }
}

/// Joins strings with `", "` between them.
pub fn join_comma(v: &Vec<String>) -> (r: String)
    ensures
        r@ == spec_join(v@.map_values(|s: String| s@), ", "@),
{
    let ghost views: Seq<Seq<char>> = v@.map_values(|s: String| s@);
    let n = v.len();
    let mut s = String::new();
    let mut i: usize = 0;
    proof {
        assert(views.take(0) =~= Seq::<Seq<char>>::empty());
    }
    while i < n
        invariant
            i <= n,
            n == v@.len(),
            views == v@.map_values(|s: String| s@),
            s@ == spec_join(views.take(i as int), ", "@),
        decreases n - i,
    {
        proof {
            assert(views.take(i + 1).drop_last() =~= views.take(i as int));
            assert(views.take(i + 1).last() == views[i as int]);
            assert(views[i as int] == v@[i as int]@);
        }
        if i > 0 {
            s.append(", ");
        } else {
            proof {
                assert(views.take(1).len() == 1);
            }
        }
        s.append(v[i].as_str());
        i += 1;
    }
    proof {
        assert(views.take(n as int) =~= views);
    }
    s
}

/// The position of the first occurrence of a character, or -1 when
/// there is none.
pub open spec fn spec_first_char(s: Seq<char>, c: char) -> int
    decreases s.len(),
{
    if s.len() == 0 {
        -1
    } else if s[0] == c {
        0
    } else {
        let r = spec_first_char(s.skip(1), c);
        if r < 0 {
            -1
        } else {
            r + 1
        }
    }
}

/// What the first-occurrence position means.
pub proof fn lemma_first_char(s: Seq<char>, c: char)
    ensures
        spec_first_char(s, c) == -1 ==> forall|j: int| 0 <= j < s.len() ==> s[j] != c,
        spec_first_char(s, c) >= 0 ==> {
            &&& spec_first_char(s, c) < s.len()
            &&& s[spec_first_char(s, c)] == c
            &&& forall|j: int| 0 <= j < spec_first_char(s, c) ==> s[j] != c
        },
    decreases s.len(),
{
    if s.len() > 0 && s[0] != c {
        lemma_first_char(s.skip(1), c);
        let r = spec_first_char(s.skip(1), c);
        if r < 0 {
            assert(forall|j: int| 0 <= j < s.len() ==> s[j] != c) by {
                assert(forall|j: int| 1 <= j < s.len() ==> s[j] == s.skip(1)[j - 1]);
            }
        } else {
            assert(s[r + 1] == s.skip(1)[r]);
            assert(forall|j: int| 0 <= j < r + 1 ==> s[j] != c) by {
                assert(forall|j: int| 1 <= j < r + 1 ==> s[j] == s.skip(1)[j - 1]);
            }
        }
    }
}

/// A sequence with every leading repeat of a non-empty prefix removed.
pub open spec fn spec_strip_all(s: Seq<char>, p: Seq<char>) -> Seq<char>
    decreases s.len(),
{
    if p.len() > 0 && is_prefix(p, s) && s.len() > 0 {
        spec_strip_all(s.skip(p.len() as int), p)
    } else {
        s
    }
}

/// Removes every leading repeat of a prefix, as a marker strip does.
pub fn strip_all_prefix(s: &str, p: &str) -> (r: String)
    requires
        p@.len() > 0,
    ensures
        r@ == spec_strip_all(s@, p@),
{
    let mut cur: String = s.to_owned();
    let mut remaining = cur.as_str().unicode_len();
    while str_starts_with(cur.as_str(), p)
        invariant
            p@.len() > 0,
            remaining == cur@.len(),
            spec_strip_all(s@, p@) == spec_strip_all(cur@, p@),
        decreases remaining,
    {
        let np = p.unicode_len();
        let nc = cur.as_str().unicode_len();
        if np > nc {
            proof {
                assert(false);
            }
        }
        let next = cur.as_str().substring_char(np, nc).to_owned();
        proof {
            assert(next@ =~= cur@.skip(p@.len() as int));
        }
        cur = next;
        remaining = cur.as_str().unicode_len();
    }
    cur
}

/// Whether a sequence is a suffix of another.
pub open spec fn is_suffix(p: Seq<char>, s: Seq<char>) -> bool {
    p.len() <= s.len() && s.skip(s.len() - p.len()) == p
}

/// Whether one string ends with another.
pub fn str_ends_with(s: &str, p: &str) -> (r: bool)
    ensures
        r <==> is_suffix(p@, s@),
{
    let np = p.unicode_len();
    let ns = s.unicode_len();
    if np > ns {
        return false;
    }
    let tail = s.substring_char(ns - np, ns);
    proof {
        assert(tail@ =~= s@.skip(s@.len() - p@.len()));
    }
    str_eq(tail, p)
}

} // verus!
