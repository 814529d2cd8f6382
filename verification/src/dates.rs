//! The compact date form of filings and its conversion to ISO form.

use vstd::prelude::*;
use vstd::string::*;

verus! {

/// An ASCII decimal digit.
pub open spec fn is_digit(c: char) -> bool {
    '0' <= c && c <= '9'
}

/// Eight decimal digits: the `YYYYMMDD` form.
pub open spec fn is_compact_date(s: Seq<char>) -> bool {
    s.len() == 8 && forall|i: int| 0 <= i < 8 ==> is_digit(#[trigger] s[i])
}

/// `YYYY-MM-DD` from the eight characters of `s`.
pub open spec fn dashed(s: Seq<char>) -> Seq<char> {
    s.subrange(0, 4) + seq!['-'] + s.subrange(4, 6) + seq!['-'] + s.subrange(6, 8)
}

/// The text of a date field as it is handed on: a compact date rewritten to
/// ISO form, anything else unchanged.
pub open spec fn format_fec_date(s: Seq<char>) -> Seq<char> {
    if is_compact_date(s) {
        dashed(s)
    } else {
        s
    }
}

/// Formatting is idempotent: what has been formatted is no compact date any
/// more, and a second formatting leaves it as it is.
pub proof fn lemma_format_is_idempotent(s: Seq<char>)
    ensures
        !is_compact_date(format_fec_date(s)),
        format_fec_date(format_fec_date(s)) == format_fec_date(s),
        s.len() != 8 ==> format_fec_date(s) == s,
{
}

/// Tells whether `value` is a compact date.
pub fn is_fec_date(value: &str) -> (b: bool)
    ensures
        b == is_compact_date(value@),
{
    if value.unicode_len() != 8 {
        return false;
    }
    let mut i: usize = 0;
    while i < 8
        invariant
            value@.len() == 8,
            i <= 8,
            forall|j: int| 0 <= j < i ==> is_digit(#[trigger] value@[j]),
        decreases 8 - i,
    {
        let c = value.get_char(i);
        if !('0' <= c && c <= '9') {
            return false;
        }
        i = i + 1;
    }
    true
}

/// Rewrites a compact date `YYYYMMDD` as `YYYY-MM-DD`; any other value comes
/// back unchanged.
pub fn try_format_fec_date(value: &str) -> (r: String)
    ensures
        r@ == format_fec_date(value@),
{
    if !is_fec_date(value) {
        return value.to_owned();
    }
    proof {
        reveal_strlit("-");
        assert("-"@ =~= seq!['-']);
    }
    let mut out = String::from_str(value.substring_char(0, 4));
    out.append("-");
    out.append(value.substring_char(4, 6));
    out.append("-");
    out.append(value.substring_char(6, 8));
    out
}

} // verus!
