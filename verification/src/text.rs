//! Small verified text utilities: exact and ASCII-case-insensitive string
//! comparison, and parsing of boolean values, as configuration sources need
//! them.

use vstd::prelude::*;

verus! {

/// Two characters match up to ASCII case: they are equal, or one is an ASCII
/// uppercase letter and the other its lowercase counterpart.
pub open spec fn char_case_eq(x: char, y: char) -> bool {
    ||| x == y
    ||| (65 <= x as u32 <= 90 && y as u32 == x as u32 + 32)
    ||| (65 <= y as u32 <= 90 && x as u32 == y as u32 + 32)
}

/// Two character sequences match up to ASCII case, position by position.
pub open spec fn seq_case_eq(a: Seq<char>, b: Seq<char>) -> bool {
    a.len() == b.len() && forall|i: int| 0 <= i < a.len() ==> char_case_eq(a[i], b[i])
}

/// Exact string equality, stated over the views.
pub fn str_eq(a: &str, b: &str) -> (r: bool)
    ensures
        r == (a@ == b@),
{
    let sa: String = a.to_owned();
    let sb: String = b.to_owned();
    sa == sb
}

/// ASCII-case-insensitive string equality, stated over the views.
pub fn eq_ignore_ascii_case(a: &str, b: &str) -> (r: bool)
    ensures
        r == seq_case_eq(a@, b@),
{
    let n = a.unicode_len();
    if n != b.unicode_len() {
        return false;
    }
    let mut i: usize = 0;
    while i < n
        invariant
            n == a@.len(),
            n == b@.len(),
            i <= n,
            forall|j: int| 0 <= j < i ==> char_case_eq(a@[j], b@[j]),
        decreases n - i,
    {
        let x = a.get_char(i);
        let y = b.get_char(i);
        let xu = x as u32;
        let yu = y as u32;
        let matches = x == y || (65 <= xu && xu <= 90 && yu == xu + 32) || (65 <= yu && yu <= 90
            && xu == yu + 32);
        if !matches {
            return false;
        }
        i = i + 1;
    }
    true
}

/// The string holds no NUL character, so it can be handed to an
/// operating-system interface that ends strings at the first NUL.
pub open spec fn spec_nul_free(s: Seq<char>) -> bool {
    forall|i: int| 0 <= i < s.len() ==> s[i] as u32 != 0
}

/// Checks that the string holds no NUL character.
pub fn nul_free(s: &str) -> (r: bool)
    ensures
        r == spec_nul_free(s@),
{
    let n = s.unicode_len();
    let mut i: usize = 0;
    while i < n
        invariant
            n == s@.len(),
            i <= n,
            forall|j: int| 0 <= j < i ==> s@[j] as u32 != 0,
        decreases n - i,
    {
        if s.get_char(i) as u32 == 0 {
            return false;
        }
        i = i + 1;
    }
    true
}

/// What parsing a boolean accepts: exactly the strings `true` and `false`.
pub open spec fn spec_parse_bool(s: Seq<char>) -> Option<bool> {
    if s == "true"@ {
        Some(true)
    } else if s == "false"@ {
        Some(false)
    } else {
        None
    }
}

/// Parses a boolean the way the configuration sources expect it: `true` and
/// `false`, exactly; anything else contributes nothing.
pub fn parse_bool(s: &str) -> (r: Option<bool>)
    ensures
        r == spec_parse_bool(s@),
{
    if str_eq(s, "true") {
        Some(true)
    } else if str_eq(s, "false") {
        Some(false)
    } else {
        None
    }
}

} // verus!
