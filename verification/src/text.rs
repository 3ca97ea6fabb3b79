//! Small helpers on text that the other modules share.

use vstd::prelude::*;
use vstd::string::StrSliceExecFns;
use vstd::utf8::encode_utf8_decode_utf8;

verus! {

/// The view of a text that may be absent.
pub open spec fn text_view(text: Option<String>) -> Option<Seq<char>> {
    match text {
        Some(t) => Some(t@),
        None => None,
    }
}

/// The views of a list of pairs of texts.
pub open spec fn pair_views(pairs: Seq<(String, String)>) -> Seq<(Seq<char>, Seq<char>)> {
    Seq::new(pairs.len(), |i: int| (pairs[i].0@, pairs[i].1@))
}

/// Whether two texts are equal, found without stopping at the first
/// difference: texts of one length in bytes take the same steps whatever
/// they hold.
pub fn constant_shape_eq(a: &str, b: &str) -> (same: bool)
    ensures
        same == (a@ == b@),
{
    let x = a.as_bytes();
    let y = b.as_bytes();
    proof {
        encode_utf8_decode_utf8(a@);
        encode_utf8_decode_utf8(b@);
    }
    let n = x.len();
    if n != y.len() {
        return false;
    }
    let mut difference: u8 = 0;
    let mut i: usize = 0;
    while i < n
        invariant
            i <= n,
            n == x@.len(),
            n == y@.len(),
            (difference == 0) == (forall|j: int| 0 <= j < i ==> x@[j] == y@[j]),
        decreases n - i,
    {
        let p: u8 = x[i];
        let q: u8 = y[i];
        let before: u8 = difference;
        difference = before | (p ^ q);
        proof {
            assert(((before | (p ^ q)) == 0) == (before == 0 && p == q)) by (bit_vector);
            if before == 0 && p != q {
                assert(x@[i as int] != y@[i as int]);
            }
        }
        i += 1;
    }
    proof {
        if difference == 0 {
            assert(x@ =~= y@);
        }
    }
    difference == 0
}

/// The lower-case form of a text, as `str::to_lowercase` gives it.
pub uninterp spec fn lowercase_of(text: Seq<char>) -> Seq<char>;

/// `str::to_lowercase` of std: the lower-case form of `text`, by the rules
/// of Unicode.
#[verifier::external_body]
pub(crate) fn to_lowercase(text: &str) -> (lower: String)
    ensures
        lower@ == lowercase_of(text@),
{
    text.to_lowercase()
}

/// The switch that a lower-case text names: `true`, `false`, or none.
pub open spec fn flag_named(lower: Seq<char>) -> Option<bool> {
    if lower == "true"@ {
        Some(true)
    } else if lower == "false"@ {
        Some(false)
    } else {
        None
    }
}

/// The switch that a text names, in whatever case it is written.
pub open spec fn spec_parse_flag(text: Seq<char>) -> Option<bool> {
    flag_named(lowercase_of(text))
}

/// Reads a switch from a text in lower case.
pub fn flag_from_lowercase(lower: &str) -> (flag: Option<bool>)
    ensures
        flag == flag_named(lower@),
{
    if constant_shape_eq(lower, "true") {
        Some(true)
    } else if constant_shape_eq(lower, "false") {
        Some(false)
    } else {
        None
    }
}

/// Reads a switch: `true` or `false`, in any case.
pub fn parse_flag(text: &str) -> (flag: Option<bool>)
    ensures
        flag == spec_parse_flag(text@),
{
    let lower = to_lowercase(text);
    flag_from_lowercase(lower.as_str())
}

pub open spec fn is_digit(c: char) -> bool {
    '0' <= c && c <= '9'
}

pub open spec fn all_digits(s: Seq<char>) -> bool {
    forall|i: int| 0 <= i < s.len() ==> is_digit(#[trigger] s[i])
}

/// The number that a sequence of decimal digits writes.
pub open spec fn decimal_value(s: Seq<char>) -> nat
    decreases s.len(),
{
    if s.len() == 0 {
        0
    } else {
        decimal_value(s.drop_last()) * 10 + (s.last() as u32 - '0' as u32) as nat
    }
}

/// A text without the plus sign that may lead it.
pub open spec fn unsigned_part(s: Seq<char>) -> Seq<char> {
    if s.len() > 0 && s[0] == '+' {
        s.skip(1)
    } else {
        s
    }
}

/// The number that a text writes in decimal: one or more digits, which a
/// plus sign may lead, with a value that fits 64 bits. Any other text
/// writes none.
pub open spec fn spec_parse_u64(s: Seq<char>) -> Option<u64> {
    let digits = unsigned_part(s);
    if digits.len() == 0 || !all_digits(digits) || decimal_value(digits) > u64::MAX {
        None
    } else {
        Some(decimal_value(digits) as u64)
    }
}

/// The number that a text writes, where it also fits the machine's word.
pub open spec fn spec_parse_usize(s: Seq<char>) -> Option<usize> {
    match spec_parse_u64(s) {
        Some(v) => if v <= usize::MAX {
            Some(v as usize)
        } else {
            None
        },
        None => None,
    }
}

/// A longer sequence of digits writes no smaller number than its start.
pub proof fn lemma_decimal_value_grows(s: Seq<char>, k: int)
    requires
        0 <= k <= s.len(),
    ensures
        decimal_value(s.take(k)) <= decimal_value(s),
    decreases s.len(),
{
    if k == s.len() {
        assert(s.take(k) =~= s);
    } else {
        lemma_decimal_value_grows(s.drop_last(), k);
        assert(s.drop_last().take(k) =~= s.take(k));
    }
}

/// Reads a number in decimal.
pub fn parse_u64(text: &str) -> (number: Option<u64>)
    ensures
        number == spec_parse_u64(text@),
{
    let n = text.unicode_len();
    let start: usize = if n > 0 && text.get_char(0) == '+' {
        1
    } else {
        0
    };
    let ghost digits = unsigned_part(text@);
    assert(digits.len() == n - start);
    if start == n {
        return None;
    }
    let mut value: u64 = 0;
    let mut i: usize = start;
    while i < n
        invariant
            start <= i <= n,
            n == text@.len(),
            digits == text@.skip(start as int),
            digits == unsigned_part(text@),
            all_digits(digits.take(i - start)),
            value == decimal_value(digits.take(i - start)),
        decreases n - i,
    {
        let c = text.get_char(i);
        assert(c == digits[i - start]);
        if c < '0' || c > '9' {
            assert(!is_digit(digits[i - start]));
            return None;
        }
        let digit: u64 = (c as u32 - '0' as u32) as u64;
        proof {
            let grown = digits.take(i - start + 1);
            assert(grown.drop_last() =~= digits.take(i - start));
            assert(grown.last() == c);
            assert(decimal_value(grown) == value * 10 + digit);
            lemma_decimal_value_grows(digits, i - start + 1);
            assert forall|j: int| 0 <= j < grown.len() implies is_digit(#[trigger] grown[j]) by {
                if j < i - start {
                    assert(grown[j] == digits.take(i - start)[j]);
                }
            }
        }
        if value > 1844674407370955161 || (value == 1844674407370955161 && digit > 5) {
            return None;
        }
        value = value * 10 + digit;
        i += 1;
    }
    assert(digits.take(n - start) =~= digits);
    Some(value)
}

/// Reads a number that fits the machine's word.
pub fn parse_usize(text: &str) -> (number: Option<usize>)
    ensures
        number == spec_parse_usize(text@),
{
    match parse_u64(text) {
        Some(v) => if v <= usize::MAX as u64 {
            Some(v as usize)
        } else {
            None
        },
        None => None,
    }
}

/// The value of the first of `vars` that is named `name`.
pub open spec fn spec_lookup(vars: Seq<(Seq<char>, Seq<char>)>, name: Seq<char>) -> Option<
    Seq<char>,
>
    decreases vars.len(),
{
    if vars.len() == 0 {
        None
    } else if vars[0].0 == name {
        Some(vars[0].1)
    } else {
        spec_lookup(vars.skip(1), name)
    }
}

/// Looks a variable up by its name.
pub fn lookup(vars: &Vec<(String, String)>, name: &str) -> (value: Option<String>)
    ensures
        text_view(value) == spec_lookup(pair_views(vars@), name@),
{
    let mut i: usize = 0;
    assert(pair_views(vars@).skip(0) =~= pair_views(vars@));
    while i < vars.len()
        invariant
            i <= vars.len(),
            spec_lookup(pair_views(vars@), name@) == spec_lookup(
                pair_views(vars@).skip(i as int),
                name@,
            ),
        decreases vars.len() - i,
    {
        let ghost rest = pair_views(vars@).skip(i as int);
        assert(rest[0] == (vars[i as int].0@, vars[i as int].1@));
        if constant_shape_eq(vars[i].0.as_str(), name) {
            return Some(vars[i].1.clone());
        }
        assert(rest.skip(1) =~= pair_views(vars@).skip(i + 1));
        i += 1;
    }
    None
}

} // verus!
