//! The text of a number field: which values count as decimal numbers.
//!
//! A number is an optional sign, then either one of the words `inf`,
//! `infinity` and `nan` in any case, or digits with at most one decimal point
//! among them and, optionally, an exponent: `e` or `E`, an optional sign, and
//! digits. There is at least one digit before the exponent, and at least one
//! in it.

use crate::dates::is_digit;
use crate::text::chars_of;
use vstd::prelude::*;
use vstd::string::*;

verus! {

/// A plus or a minus.
pub open spec fn is_sign(c: char) -> bool {
    c == '+' || c == '-'
}

/// How many digits `s` begins with.
pub open spec fn leading_digits(s: Seq<char>) -> nat
    decreases s.len(),
{
    if s.len() > 0 && is_digit(s[0]) {
        1 + leading_digits(s.drop_first())
    } else {
        0
    }
}

/// An exponent: `e` or `E`, an optional sign, and one or more digits.
pub open spec fn is_exponent(s: Seq<char>) -> bool {
    &&& s.len() > 0
    &&& (s[0] == 'e' || s[0] == 'E')
    &&& {
        let digits = if s.len() > 1 && is_sign(s[1]) {
            s.skip(2)
        } else {
            s.skip(1)
        };
        digits.len() > 0 && leading_digits(digits) == digits.len()
    }
}

/// Nothing, or an exponent.
pub open spec fn is_tail(s: Seq<char>) -> bool {
    s.len() == 0 || is_exponent(s)
}

/// Digits with at most one decimal point among them, at least one digit, and
/// then nothing or an exponent.
pub open spec fn is_decimal(s: Seq<char>) -> bool {
    let whole = leading_digits(s);
    let rest = s.skip(whole as int);
    if rest.len() > 0 && rest[0] == '.' {
        let fraction = leading_digits(rest.skip(1));
        whole + fraction > 0 && is_tail(rest.skip(1 + fraction as int))
    } else {
        whole > 0 && is_tail(rest)
    }
}

/// `s` spells a word, each letter in its lower or its upper case.
pub open spec fn spells(s: Seq<char>, lower: Seq<char>, upper: Seq<char>) -> bool {
    &&& s.len() == lower.len()
    &&& forall|i: int| 0 <= i < s.len() ==> #[trigger] s[i] == lower[i] || s[i] == upper[i]
}

/// One of the words that stand for a number that is no decimal.
pub open spec fn is_special(s: Seq<char>) -> bool {
    ||| spells(s, "inf"@, "INF"@)
    ||| spells(s, "infinity"@, "INFINITY"@)
    ||| spells(s, "nan"@, "NAN"@)
}

/// `s` without the sign that it may begin with.
pub open spec fn unsigned(s: Seq<char>) -> Seq<char> {
    if s.len() > 0 && is_sign(s[0]) {
        s.skip(1)
    } else {
        s
    }
}

/// `s` is the text of a number.
pub open spec fn is_float_text(s: Seq<char>) -> bool {
    is_special(unsigned(s)) || is_decimal(unsigned(s))
}

/// The index behind the digits that stand at `from`.
fn digits_end(cs: &Vec<char>, from: usize) -> (end: usize)
    requires
        from <= cs.len(),
    ensures
        from <= end <= cs.len(),
        end - from == leading_digits(cs@.skip(from as int)),
{
    let mut i: usize = from;
    while i < cs.len() && '0' <= cs[i] && cs[i] <= '9'
        invariant
            from <= i <= cs.len(),
            leading_digits(cs@.skip(from as int)) == (i - from) + leading_digits(
                cs@.skip(i as int),
            ),
        decreases cs.len() - i,
    {
        proof {
            assert(cs@.skip(i as int).drop_first() == cs@.skip(i + 1));
        }
        i = i + 1;
    }
    proof {
        let rest = cs@.skip(i as int);
        if rest.len() > 0 {
            assert(rest[0] == cs[i as int]);
        }
    }
    i
}

/// Tells whether nothing or an exponent stands at `from`.
fn tail_at(cs: &Vec<char>, from: usize) -> (b: bool)
    requires
        from <= cs.len(),
    ensures
        b == is_tail(cs@.skip(from as int)),
{
    let n: usize = cs.len();
    let ghost s = cs@.skip(from as int);
    if from == n {
        return true;
    }
    assert(s[0] == cs[from as int]);
    if cs[from] != 'e' && cs[from] != 'E' {
        return false;
    }
    let mut start: usize = from + 1;
    if start < n && (cs[start] == '+' || cs[start] == '-') {
        start = start + 1;
    }
    proof {
        if s.len() > 1 {
            assert(s[1] == cs[from + 1]);
        }
        assert(s.skip(start - from) == cs@.skip(start as int));
    }
    let end: usize = digits_end(cs, start);
    end > start && end == n
}

/// Tells whether a decimal stands at `from`.
fn decimal_at(cs: &Vec<char>, from: usize) -> (b: bool)
    requires
        from <= cs.len(),
    ensures
        b == is_decimal(cs@.skip(from as int)),
{
    let n: usize = cs.len();
    let ghost s = cs@.skip(from as int);
    let whole_end: usize = digits_end(cs, from);
    proof {
        assert(s.skip(whole_end - from) == cs@.skip(whole_end as int));
        if whole_end < n {
            assert(cs@.skip(whole_end as int)[0] == cs[whole_end as int]);
        }
    }
    if whole_end < n && cs[whole_end] == '.' {
        let fraction_end: usize = digits_end(cs, whole_end + 1);
        proof {
            let rest = cs@.skip(whole_end as int);
            assert(rest.skip(1) == cs@.skip(whole_end + 1));
            assert(rest.skip(1 + (fraction_end - (whole_end + 1))) == cs@.skip(
                fraction_end as int,
            ));
        }
        if fraction_end - from <= 1 {
            return false;
        }
        tail_at(cs, fraction_end)
    } else {
        whole_end > from && tail_at(cs, whole_end)
    }
}

/// Tells whether the characters from `from` on spell a word, each letter in
/// its lower or its upper case.
fn spells_at(cs: &Vec<char>, from: usize, lower: &str, upper: &str) -> (b: bool)
    requires
        from <= cs.len(),
        lower@.len() == upper@.len(),
    ensures
        b == spells(cs@.skip(from as int), lower@, upper@),
{
    let n: usize = lower.unicode_len();
    let ghost s = cs@.skip(from as int);
    if cs.len() - from != n {
        return false;
    }
    let mut i: usize = 0;
    while i < n
        invariant
            i <= n,
            from <= cs.len(),
            n == lower@.len(),
            n == upper@.len(),
            cs.len() - from == n,
            s == cs@.skip(from as int),
            forall|j: int| 0 <= j < i ==> #[trigger] s[j] == lower@[j] || s[j] == upper@[j],
        decreases n - i,
    {
        let c = cs[from + i];
        assert(s[i as int] == c);
        if c != lower.get_char(i) && c != upper.get_char(i) {
            return false;
        }
        i = i + 1;
    }
    true
}

/// Tells whether `value` is the text of a number.
pub fn is_float(value: &str) -> (b: bool)
    ensures
        b == is_float_text(value@),
{
    let cs = chars_of(value);
    let from: usize = if cs.len() > 0 && (cs[0] == '+' || cs[0] == '-') {
        1
    } else {
        0
    };
    proof {
        assert(cs@.skip(0) == cs@);
        assert(unsigned(value@) == cs@.skip(from as int));
        reveal_strlit("inf");
        reveal_strlit("INF");
        reveal_strlit("infinity");
        reveal_strlit("INFINITY");
        reveal_strlit("nan");
        reveal_strlit("NAN");
    }
    spells_at(&cs, from, "inf", "INF") || spells_at(&cs, from, "infinity", "INFINITY") || spells_at(
        &cs,
        from,
        "nan",
        "NAN",
    ) || decimal_at(&cs, from)
}

} // verus!
