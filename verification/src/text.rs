//! Character-level building blocks shared by the validated value types:
//! the whitespace test behind "non-empty after trimming", the two
//! forbidden-character sets, and grapheme-cluster counting.

use vstd::prelude::*;
use vstd::string::StrSliceExecFns;

verus! {

/// The Unicode `White_Space` characters, the set that `str::trim` and
/// `char::is_whitespace` go by.
pub open spec fn is_whitespace_char(c: char) -> bool {
    let u = c as u32;
    ||| (0x09 <= u && u <= 0x0D)
    ||| u == 0x20
    ||| u == 0x85
    ||| u == 0xA0
    ||| u == 0x1680
    ||| (0x2000 <= u && u <= 0x200A)
    ||| u == 0x2028
    ||| u == 0x2029
    ||| u == 0x202F
    ||| u == 0x205F
    ||| u == 0x3000
}

/// A string is blank when every character is whitespace; trimming such a
/// string (or the empty string) leaves nothing.
pub open spec fn all_whitespace(s: Seq<char>) -> bool {
    forall|i: int| 0 <= i < s.len() ==> is_whitespace_char(#[trigger] s[i])
}

/// The characters that artist names, venues, cities and states reject.
pub open spec fn is_forbidden_text_char(c: char) -> bool {
    ||| c == '/'
    ||| c == '('
    ||| c == ')'
    ||| c == '"'
    ||| c == '<'
    ||| c == '>'
    ||| c == '{'
    ||| c == '}'
    ||| c == '\\'
}

/// The broader symbol set that countries reject.
pub open spec fn is_forbidden_country_char(c: char) -> bool {
    ||| c == '<'
    ||| c == '>'
    ||| c == '"'
    ||| c == '`'
    ||| c == '%'
    ||| c == '!'
    ||| c == '@'
    ||| c == '$'
    ||| c == '^'
    ||| c == '&'
    ||| c == '*'
    ||| c == '('
    ||| c == ')'
    ||| c == '='
    ||| c == '+'
    ||| c == '{'
    ||| c == '}'
    ||| c == '['
    ||| c == ']'
    ||| c == '|'
    ||| c == '\\'
    ||| c == ';'
    ||| c == ':'
    ||| c == '/'
    ||| c == '?'
    ||| c == ','
    ||| c == '~'
    ||| c == '#'
    ||| c == '\''
}

pub open spec fn contains_forbidden_text_char(s: Seq<char>) -> bool {
    exists|i: int| 0 <= i < s.len() && is_forbidden_text_char(#[trigger] s[i])
}

pub open spec fn contains_forbidden_country_char(s: Seq<char>) -> bool {
    exists|i: int| 0 <= i < s.len() && is_forbidden_country_char(#[trigger] s[i])
}

pub fn char_is_whitespace(c: char) -> (b: bool)
    ensures
        b == is_whitespace_char(c),
{
    let u = c as u32;
    (0x09 <= u && u <= 0x0D) || u == 0x20 || u == 0x85 || u == 0xA0 || u == 0x1680 || (0x2000 <= u
        && u <= 0x200A) || u == 0x2028 || u == 0x2029 || u == 0x202F || u == 0x205F || u == 0x3000
}

pub fn char_is_forbidden_text(c: char) -> (b: bool)
    ensures
        b == is_forbidden_text_char(c),
{
    c == '/' || c == '(' || c == ')' || c == '"' || c == '<' || c == '>' || c == '{' || c == '}'
        || c == '\\'
}

pub fn char_is_forbidden_country(c: char) -> (b: bool)
    ensures
        b == is_forbidden_country_char(c),
{
    c == '<' || c == '>' || c == '"' || c == '`' || c == '%' || c == '!' || c == '@' || c == '$'
        || c == '^' || c == '&' || c == '*' || c == '(' || c == ')' || c == '=' || c == '+'
        || c == '{' || c == '}' || c == '[' || c == ']' || c == '|' || c == '\\' || c == ';'
        || c == ':' || c == '/' || c == '?' || c == ',' || c == '~' || c == '#' || c == '\''
}

/// Whether the string is empty or consists of whitespace only, that is,
/// whether trimming it would leave the empty string.
pub fn is_blank(s: &str) -> (b: bool)
    ensures
        b == all_whitespace(s@),
{
    let n = s.unicode_len();
    let mut i: usize = 0;
    while i < n
        invariant
            n == s@.len(),
            i <= n,
            forall|j: int| 0 <= j < i ==> is_whitespace_char(#[trigger] s@[j]),
        decreases n - i,
    {
        let c = s.get_char(i);
        if !char_is_whitespace(c) {
            return false;
        }
        i += 1;
    }
    true
}

pub fn has_forbidden_text_char(s: &str) -> (b: bool)
    ensures
        b == contains_forbidden_text_char(s@),
{
    let n = s.unicode_len();
    let mut i: usize = 0;
    while i < n
        invariant
            n == s@.len(),
            i <= n,
            forall|j: int| 0 <= j < i ==> !is_forbidden_text_char(#[trigger] s@[j]),
        decreases n - i,
    {
        let c = s.get_char(i);
        if char_is_forbidden_text(c) {
            return true;
        }
        i += 1;
    }
    false
}

pub fn has_forbidden_country_char(s: &str) -> (b: bool)
    ensures
        b == contains_forbidden_country_char(s@),
{
    let n = s.unicode_len();
    let mut i: usize = 0;
    while i < n
        invariant
            n == s@.len(),
            i <= n,
            forall|j: int| 0 <= j < i ==> !is_forbidden_country_char(#[trigger] s@[j]),
        decreases n - i,
    {
        let c = s.get_char(i);
        if char_is_forbidden_country(c) {
            return true;
        }
        i += 1;
    }
    false
}

/// How many extended grapheme clusters the string divides into; length
/// bounds on the value types are measured in these, not in bytes.
pub uninterp spec fn grapheme_count(s: Seq<char>) -> nat;

/// Relies on `unicode_segmentation`'s `UnicodeSegmentation::graphemes`
/// (with extended clusters selected) together with `Iterator::count`:
/// the division of a string into extended grapheme clusters is a function
/// of its characters alone.
#[verifier::external_body]
pub(crate) fn count_graphemes(s: &str) -> (n: usize)
    ensures
        n == grapheme_count(s@),
{
    unicode_segmentation::UnicodeSegmentation::graphemes(s, true).count()
}

} // verus!
