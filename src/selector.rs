//! Reading a variant selector as an array index.

use vstd::prelude::*;

verus! {

/// Whether `s` is a non-empty run of ASCII decimal digits.
pub open spec fn all_digits(s: Seq<char>) -> bool {
    s.len() > 0 && forall|i: int| 0 <= i < s.len() ==> '0' <= #[trigger] s[i] <= '9'
}

/// The number that a run of decimal digits denotes.
pub open spec fn digits_value(s: Seq<char>) -> int
    decreases s.len(),
{
    if s.len() == 0 {
        0
    } else {
        digits_value(s.drop_last()) * 10 + (s.last() as int - '0' as int)
    }
}

/// The index that `s` denotes in decimal, with an optional leading `+`, where
/// it fits in `usize`.
pub open spec fn decimal_index(s: Seq<char>) -> Option<usize> {
    let digits = if s.len() > 0 && s[0] == '+' {
        s.drop_first()
    } else {
        s
    };
    if all_digits(digits) && digits_value(digits) <= usize::MAX {
        Some(digits_value(digits) as usize)
    } else {
        None
    }
}

/// Relies on `str::parse::<usize>`: decimal digits after an optional `+`,
/// failing on anything else and on overflow.
#[verifier::external_body]
pub(crate) fn parse_index(s: &str) -> (r: Option<usize>)
    ensures
        r == decimal_index(s@),
{
    s.parse::<usize>().ok()
}

} // verus!
