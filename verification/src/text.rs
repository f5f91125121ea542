//! Operations on string slices, stated over their character sequences.

use vstd::prelude::*;

verus! {

/// The characters of an optional string slice.
pub open spec fn chars_of(s: Option<&str>) -> Option<Seq<char>> {
    match s {
        Some(t) => Some(t@),
        None => None,
    }
}

/// What is left of `s` once the leading `prefix` is taken away, if `s` begins with it.
pub open spec fn without_prefix(s: Seq<char>, prefix: Seq<char>) -> Option<Seq<char>> {
    if prefix.is_prefix_of(s) {
        Some(s.skip(prefix.len() as int))
    } else {
        None
    }
}

/// Whether `needle` stands in `s` at position `at`.
pub open spec fn occurs_at(s: Seq<char>, needle: Seq<char>, at: int) -> bool {
    &&& 0 <= at
    &&& at + needle.len() <= s.len()
    &&& s.subrange(at, at + needle.len()) == needle
}

/// Whether `at` is the first position of `needle` in `s`.
pub open spec fn first_occurrence(s: Seq<char>, needle: Seq<char>, at: int) -> bool {
    &&& occurs_at(s, needle, at)
    &&& forall|j: int| 0 <= j < at ==> !occurs_at(s, needle, j)
}

/// Whether `needle` stands anywhere in `s`.
pub open spec fn occurs(s: Seq<char>, needle: Seq<char>) -> bool {
    exists|at: int| occurs_at(s, needle, at)
}

/// Trusted: `str::strip_prefix` with a string slice as the pattern. The standard
/// library returns the rest of the slice behind the prefix when the slice starts
/// with it, and `None` otherwise.
#[verifier::external_body]
pub(crate) fn strip_prefix<'a>(s: &'a str, prefix: &str) -> (rest: Option<&'a str>)
    ensures
        chars_of(rest) == without_prefix(s@, prefix@),
{
    s.strip_prefix(prefix)
}

/// Trusted: `str::split_once` with a string slice as the delimiter. The standard
/// library splits at the first occurrence of the delimiter and returns what stands
/// before and behind it, or `None` when the delimiter does not occur.
#[verifier::external_body]
pub(crate) fn split_once<'a>(s: &'a str, delimiter: &str) -> (parts: Option<(&'a str, &'a str)>)
    ensures
        parts is None <==> !occurs(s@, delimiter@),
        parts matches Some((before, after)) ==> {
            &&& s@ == before@ + delimiter@ + after@
            &&& first_occurrence(s@, delimiter@, before@.len() as int)
        },
{
    s.split_once(delimiter)
}

/// The text that `str::to_lowercase` gives for a text.
pub uninterp spec fn lowercase(s: Seq<char>) -> Seq<char>;

/// The text that `str::to_uppercase` gives for a text.
pub uninterp spec fn uppercase(s: Seq<char>) -> Seq<char>;

/// Trusted: `str::to_lowercase`. The standard library maps the text to lower case
/// by the rules of Unicode, which depend on the text alone.
#[verifier::external_body]
pub(crate) fn to_lowercase(s: &str) -> (lower: String)
    ensures
        lower@ == lowercase(s@),
{
    s.to_lowercase()
}

/// Trusted: `str::to_uppercase`. The standard library maps the text to upper case
/// by the rules of Unicode, which depend on the text alone.
#[verifier::external_body]
pub(crate) fn to_uppercase(s: &str) -> (upper: String)
    ensures
        upper@ == uppercase(s@),
{
    s.to_uppercase()
}

/// The text `s` with `to` in the place of each occurrence of `from`, the
/// occurrences taken from the left and not overlapping.
pub open spec fn replaced(s: Seq<char>, from: Seq<char>, to: Seq<char>) -> Seq<char>
    decreases s.len(),
{
    if from.len() == 0 || s.len() < from.len() {
        s
    } else if from.is_prefix_of(s) {
        to + replaced(s.skip(from.len() as int), from, to)
    } else {
        seq![s[0]] + replaced(s.skip(1), from, to)
    }
}

/// Trusted: `str::replace` with a string slice as the pattern. The standard
/// library replaces all matches of the pattern, found from the left without
/// overlap. The empty pattern is left out.
#[verifier::external_body]
pub(crate) fn replace(s: &str, from: &str, to: &str) -> (r: String)
    requires
        from@.len() > 0,
    ensures
        r@ == replaced(s@, from@, to@),
{
    s.replace(from, to)
}

/// The decimal digits of a number, without leading zeros.
pub open spec fn decimal(n: nat) -> Seq<char>
    decreases n,
{
    if n < 10 {
        seq![digit(n)]
    } else {
        decimal(n / 10).push(digit(n % 10))
    }
}

/// The character of a digit.
pub open spec fn digit(d: nat) -> char {
    if d == 0 {
        '0'
    } else if d == 1 {
        '1'
    } else if d == 2 {
        '2'
    } else if d == 3 {
        '3'
    } else if d == 4 {
        '4'
    } else if d == 5 {
        '5'
    } else if d == 6 {
        '6'
    } else if d == 7 {
        '7'
    } else if d == 8 {
        '8'
    } else {
        '9'
    }
}

/// Whether `s` begins with `prefix`.
pub fn starts_with(s: &str, prefix: &str) -> (b: bool)
    ensures
        b == prefix@.is_prefix_of(s@),
{
    strip_prefix(s, prefix).is_some()
}

/// Whether two string slices hold the same characters.
pub fn same(a: &str, b: &str) -> (eq: bool)
    ensures
        eq == (a@ == b@),
{
    match strip_prefix(a, b) {
        Some(rest) => {
            proof {
                if rest@.len() == 0 {
                    assert(a@ =~= b@);
                }
            }
            rest.is_empty()
        },
        None => {
            proof {
                if a@ == b@ {
                    assert(b@.is_prefix_of(a@));
                }
            }
            false
        },
    }
}

/// A needle of one character stands where that character stands.
pub proof fn single_occurs_at(s: Seq<char>, c: char, at: int)
    ensures
        occurs_at(s, seq![c], at) <==> (0 <= at < s.len() && s[at] == c),
{
    if 0 <= at < s.len() {
        if s[at] == c {
            assert(s.subrange(at, at + 1) =~= seq![c]);
        } else {
            assert(s.subrange(at, at + 1)[0] == s[at]);
        }
    }
}

/// What stands in the rest of a text stands in the text.
pub proof fn occurs_in_the_rest(s: Seq<char>, needle: Seq<char>, from: int)
    requires
        0 <= from <= s.len(),
        occurs(s.skip(from), needle),
    ensures
        occurs(s, needle),
{
    let at = choose|at: int| occurs_at(s.skip(from), needle, at);
    assert(s.subrange(at + from, at + from + needle.len()) =~= s.skip(from).subrange(
        at,
        at + needle.len(),
    ));
    assert(occurs_at(s, needle, at + from));
}

/// Two positions that are both the first occurrence of a needle are the same.
pub proof fn first_occurrence_is_unique(s: Seq<char>, needle: Seq<char>, a: int, b: int)
    requires
        first_occurrence(s, needle, a),
        first_occurrence(s, needle, b),
    ensures
        a == b,
{
}

} // verus!
