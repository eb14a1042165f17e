//! Text primitives shared by the keyword grammars: whitespace trimming,
//! lower-casing, exact comparison and message assembly.

use vstd::prelude::*;
use vstd::string::*;

verus! {

/// Unicode `White_Space`: the characters `char::is_whitespace` accepts.
pub open spec fn is_white_space(c: char) -> bool {
    let u = c as u32;
    ||| 0x09 <= u <= 0x0d
    ||| u == 0x20
    ||| u == 0x85
    ||| u == 0xa0
    ||| u == 0x1680
    ||| 0x2000 <= u <= 0x200a
    ||| u == 0x2028
    ||| u == 0x2029
    ||| u == 0x202f
    ||| u == 0x205f
    ||| u == 0x3000
}

/// `s` without its leading white space.
pub open spec fn trim_start(s: Seq<char>) -> Seq<char>
    decreases s.len(),
{
    if s.len() > 0 && is_white_space(s[0]) {
        trim_start(s.drop_first())
    } else {
        s
    }
}

/// `s` without its trailing white space.
pub open spec fn trim_end(s: Seq<char>) -> Seq<char>
    decreases s.len(),
{
    if s.len() > 0 && is_white_space(s.last()) {
        trim_end(s.drop_last())
    } else {
        s
    }
}

/// `s` without leading and trailing white space.
pub open spec fn trimmed(s: Seq<char>) -> Seq<char> {
    trim_end(trim_start(s))
}

/// What `str::to_lowercase` returns for a string (Unicode case mapping).
pub uninterp spec fn lowercased(s: Seq<char>) -> Seq<char>;

/// Calls `str::trim`: the slice without leading and trailing Unicode
/// white space (the `White_Space` property, as `char::is_whitespace`).
#[verifier::external_body]
pub(crate) fn trim(s: &str) -> (r: &str)
    ensures
        r@ == trimmed(s@),
{
    s.trim()
}

/// The ASCII lower-case of `c`: `A`-`Z` become `a`-`z`, others stay.
pub open spec fn ascii_lower(c: char) -> char {
    if 'A' <= c && c <= 'Z' {
        ((c as u32) + 32) as char
    } else {
        c
    }
}

/// `s` with `A`-`Z` lower-cased and every other character kept.
pub open spec fn ascii_lowered(s: Seq<char>) -> Seq<char> {
    s.map_values(|c: char| ascii_lower(c))
}

/// Every character of `s` is ASCII.
pub open spec fn all_ascii(s: Seq<char>) -> bool {
    forall|i: int| 0 <= i < s.len() ==> (s[i] as u32) < 128
}

/// Calls `str::to_lowercase`: the Unicode lower-case mapping of the
/// input. The contract names that mapping; of it, it states only that on
/// ASCII text it lower-cases `A`-`Z` and keeps every other character.
#[verifier::external_body]
pub(crate) fn to_lowercase(s: &str) -> (r: String)
    ensures
        r@ == lowercased(s@),
        all_ascii(s@) ==> r@ == ascii_lowered(s@),
{
    s.to_lowercase()
}

/// Character-wise equality of two strings.
pub fn str_eq(a: &str, b: &str) -> (r: bool)
    ensures
        r == (a@ == b@),
{
    let n = a.unicode_len();
    let m = b.unicode_len();
    if n != m {
        return false;
    }
    let mut i: usize = 0;
    while i < n
        invariant
            n == a@.len(),
            m == b@.len(),
            n == m,
            i <= n,
            forall|j: int| 0 <= j < i ==> a@[j] == b@[j],
        decreases n - i,
    {
        if a.get_char(i) != b.get_char(i) {
            assert(a@[i as int] != b@[i as int]);
            return false;
        }
        i = i + 1;
    }
    assert(a@ =~= b@);
    true
}

/// `s` trimmed, then lower-cased: the form in which keywords are matched.
pub open spec fn normalized(s: Seq<char>) -> Seq<char> {
    lowercased(trimmed(s))
}

/// `s` trimmed and lower-cased; on ASCII text, `A`-`Z` become `a`-`z`.
pub fn normalize(s: &str) -> (r: String)
    ensures
        r@ == normalized(s@),
        all_ascii(trimmed(s@)) ==> r@ == ascii_lowered(trimmed(s@)),
{
    to_lowercase(trim(s))
}

/// `prefix`, then `value`, then `suffix`, as one owned string.
pub fn quoted(prefix: &str, value: &str, suffix: &str) -> (r: String)
    ensures
        r@ == prefix@ + value@ + suffix@,
{
    let mut r = String::from_str(prefix);
    r.append(value);
    r.append(suffix);
    r
}

} // verus!
