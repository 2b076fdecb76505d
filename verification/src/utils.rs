//! Time conversion and account-identifier helpers.

use vstd::prelude::*;
use vstd::string::StrSliceExecFns;
use crate::NANO;

verus! {

/// Schedule times are kept in seconds; the host clock counts nanoseconds.
pub open spec fn spec_to_nano(sec: int) -> int {
    sec * (NANO as int)
}

pub fn to_nano(timestamp: u64) -> (r: u64)
    requires
        spec_to_nano(timestamp as int) <= u64::MAX,
    ensures
        r == spec_to_nano(timestamp as int),
{
    timestamp * NANO
}

/// ASCII lower-casing of a single character, by code point.
pub open spec fn lower_code(c: char) -> int {
    if 'A' <= c && c <= 'Z' {
        c as u32 + 32
    } else {
        c as u32 as int
    }
}

/// ASCII-case-insensitive equality of two character sequences.
pub open spec fn eq_ignore_case(s: Seq<char>, t: Seq<char>) -> bool {
    s.len() == t.len() && forall|i: int| 0 <= i < s.len() ==> lower_code(s[i]) == lower_code(t[i])
}

pub fn str_eq_ignore_case(a: &str, b: &str) -> (r: bool)
    ensures
        r == eq_ignore_case(a@, b@),
{
    let alen = a.unicode_len();
    let blen = b.unicode_len();
    if alen != blen {
        return false;
    }
    let mut i: usize = 0;
    while i < alen
        invariant
            alen == a@.len(),
            blen == b@.len(),
            alen == blen,
            0 <= i <= alen,
            forall|k: int| 0 <= k < i ==> lower_code(a@[k]) == lower_code(b@[k]),
        decreases alen - i,
    {
        let ca = a.get_char(i) as u32;
        let cb = b.get_char(i) as u32;
        let la = if 65 <= ca && ca <= 90 { ca + 32 } else { ca };
        let lb = if 65 <= cb && cb <= 90 { cb + 32 } else { cb };
        if la != lb {
            return false;
        }
        i = i + 1;
    }
    true
}

/// A separator inside an account identifier.
pub open spec fn is_separator(c: char) -> bool {
    c == '-' || c == '_' || c == '.'
}

/// A character the host allows in account identifiers.
pub open spec fn is_account_id_char(c: char) -> bool {
    ('a' <= c && c <= 'z') || ('0' <= c && c <= '9') || is_separator(c)
}

/// The host's account-identifier grammar: 2 to 64 characters, lowercase
/// alphanumerics and the separators `-`, `_`, `.`, with no separator leading,
/// trailing, or adjacent to another separator.
pub open spec fn valid_account_id(s: Seq<char>) -> bool {
    &&& 2 <= s.len() <= 64
    &&& forall|i: int| 0 <= i < s.len() ==> is_account_id_char(#[trigger] s[i])
    &&& !is_separator(s[0])
    &&& !is_separator(s[s.len() - 1])
    &&& forall|i: int| 0 < i < s.len() && is_separator(#[trigger] s[i]) ==> !is_separator(s[i - 1])
}

/// Relies on `near_sdk::AccountId`'s `FromStr` implementation (the
/// `near-account-id` crate): a string parses exactly when it is 2 to 64 bytes
/// long, all of them lowercase alphanumerics or the separators `-`, `_`, `.`,
/// with no separator leading, trailing, or following another separator. Every
/// byte that grammar accepts is ASCII, so the same grammar read over
/// characters is [`valid_account_id`]: on accepted strings bytes and
/// characters coincide, and on all others both readings reject.
#[verifier::external_body]
pub fn check_account_id(s: &str) -> (r: bool)
    ensures
        r == valid_account_id(s@),
{
    s.parse::<near_sdk::AccountId>().is_ok()
}

} // verus!
