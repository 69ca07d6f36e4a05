//! Decimal digits in texts: the numbers that keys and fields spell out.

use vstd::prelude::*;
use vstd::string::StrSliceExecFns;

verus! {

/// Whether the character is one of `0` to `9`.
pub open spec fn is_digit(c: char) -> bool {
    '0' <= c <= '9'
}

/// The number that a digit stands for.
pub open spec fn digit_value(c: char) -> nat
    recommends
        is_digit(c),
{
    (c as u32 - '0' as u32) as nat
}

/// Whether every character is a digit.
pub open spec fn all_digits(s: Seq<char>) -> bool {
    forall|i: int| 0 <= i < s.len() ==> is_digit(#[trigger] s[i])
}

/// The number that a run of digits spells, most significant digit first.
pub open spec fn digits_value(s: Seq<char>) -> nat
    decreases s.len(),
{
    if s.len() == 0 {
        0
    } else {
        digits_value(s.drop_last()) * 10 + digit_value(s.last())
    }
}

/// Whether the text is a natural number in decimal: digits only, at least one, and no leading
/// zero on a number of two digits or more.
pub open spec fn is_natural(s: Seq<char>) -> bool {
    s.len() > 0 && all_digits(s) && (s.len() > 1 ==> s[0] != '0')
}

/// The number that the text spells, where it is a natural number that fits 64 bits.
pub open spec fn natural_u64(s: Seq<char>) -> Option<u64> {
    if is_natural(s) && digits_value(s) <= u64::MAX {
        Some(digits_value(s) as u64)
    } else {
        None
    }
}

/// The digit that the character is, if it is one.
pub fn digit_of(c: char) -> (r: Option<u8>)
    ensures
        r is Some == is_digit(c),
        r matches Some(d) ==> d == digit_value(c) && d <= 9,
{
    let code = c as u32;
    if 48 <= code && code <= 57 {
        Some((code - 48) as u8)
    } else {
        None
    }
}

/// Reads a natural number: `Some` exactly for a text of digits without a needless leading zero
/// whose number fits 64 bits.
pub fn parse_u64(text: &str) -> (r: Option<u64>)
    ensures
        r == natural_u64(text@),
{
    let n = text.unicode_len();
    if n == 0 {
        return None;
    }
    let mut value: u64 = 0;
    let mut overflow = false;
    let mut i: usize = 0;
    while i < n
        invariant
            i <= n,
            n == text@.len(),
            forall|k: int| 0 <= k < i ==> is_digit(#[trigger] text@[k]),
            i > 1 ==> text@[0] != '0',
            !overflow ==> value == digits_value(text@.take(i as int)),
            overflow ==> digits_value(text@.take(i as int)) > u64::MAX,
        decreases n - i,
    {
        let c = text.get_char(i);
        let d = match digit_of(c) {
            Some(d) => d,
            None => {
                return None;
            },
        };
        if i == 1 && text.get_char(0) == '0' {
            return None;
        }
        proof {
            assert(text@.take(i + 1).drop_last() =~= text@.take(i as int));
            assert(text@.take(i + 1).last() == c);
        }
        if !overflow {
            if value > (u64::MAX - d as u64) / 10 {
                overflow = true;
            } else {
                value = value * 10 + d as u64;
            }
        }
        i += 1;
    }
    proof {
        assert(text@.take(n as int) =~= text@);
    }
    if overflow {
        None
    } else {
        Some(value)
    }
}

/// Whether `p` is the place of the first point of the text, or the text's end where it has
/// none.
pub open spec fn is_point(s: Seq<char>, p: int) -> bool {
    &&& 0 <= p <= s.len()
    &&& p < s.len() ==> s[p] == '.'
    &&& forall|i: int| 0 <= i < p ==> s[i] != '.'
}

/// The place of the first point of the text, or the text's end where it has none.
pub open spec fn point_of(s: Seq<char>) -> int {
    choose|p: int| is_point(s, p)
}

/// Whether the text begins with a minus sign.
pub open spec fn is_negative(s: Seq<char>) -> bool {
    s.len() > 0 && s[0] == '-'
}

/// Where the digits before the point begin.
pub open spec fn whole_from(s: Seq<char>) -> int {
    if is_negative(s) {
        1
    } else {
        0
    }
}

/// The part of the text between the sign, if any, and the point.
pub open spec fn whole_of(s: Seq<char>) -> Seq<char> {
    s.subrange(whole_from(s), point_of(s))
}

/// The part of the text behind the point.
pub open spec fn fraction_of(s: Seq<char>) -> Seq<char> {
    if point_of(s) < s.len() {
        s.subrange(point_of(s) + 1, s.len() as int)
    } else {
        Seq::empty()
    }
}

/// Whether the text is a number in plain decimal notation: a minus sign or none, one digit or
/// more, and then nothing or a point with one digit or more.
pub open spec fn is_decimal(s: Seq<char>) -> bool {
    &&& whole_of(s).len() > 0
    &&& all_digits(whole_of(s))
    &&& point_of(s) < s.len() ==> fraction_of(s).len() > 0
    &&& all_digits(fraction_of(s))
}

/// Whether the number that a decimal text spells is greater than `limit`: it is not negative,
/// and the part before the point is greater than the limit, or equal to it with a digit other
/// than zero behind the point.
pub open spec fn decimal_exceeds(s: Seq<char>, limit: nat) -> bool {
    &&& !is_negative(s)
    &&& digits_value(whole_of(s)) > limit || (digits_value(whole_of(s)) == limit && exists|
        i: int,
    | 0 <= i < fraction_of(s).len() && #[trigger] fraction_of(s)[i] != '0')
}

/// Every text has a first point or an end.
proof fn lemma_point_from(s: Seq<char>, i: int)
    requires
        0 <= i <= s.len(),
        forall|k: int| 0 <= k < i ==> s[k] != '.',
    ensures
        exists|p: int| is_point(s, p) && p >= i,
    decreases s.len() - i,
{
    if i == s.len() || s[i] == '.' {
        assert(is_point(s, i));
    } else {
        lemma_point_from(s, i + 1);
    }
}

/// The place of the first point is what `point_of` names.
pub proof fn lemma_point_of(s: Seq<char>)
    ensures
        is_point(s, point_of(s)),
{
    lemma_point_from(s, 0);
}

/// There is one first point only.
pub proof fn lemma_point_unique(s: Seq<char>, p: int)
    requires
        is_point(s, p),
    ensures
        point_of(s) == p,
{
    let q = point_of(s);
    assert(is_point(s, q));
    if q < p {
        assert(s[q] != '.');
    } else if p < q {
        assert(s[p] != '.');
    }
}

/// The smaller of two numbers.
pub open spec fn least(a: nat, b: nat) -> nat {
    if a <= b {
        a
    } else {
        b
    }
}

/// Tells whether a text is a number in plain decimal notation and, if so, whether the number
/// is greater than `limit`. The number may have any length.
pub fn decimal_over(text: &str, limit: u32) -> (r: Option<bool>)
    ensures
        r is Some == is_decimal(text@),
        r matches Some(over) ==> over == decimal_exceeds(text@, limit as nat),
{
    let n = text.unicode_len();
    let negative = n > 0 && text.get_char(0) == '-';
    let from: usize = if negative {
        1
    } else {
        0
    };
    let cap: u64 = limit as u64 + 1;
    let mut whole: u64 = 0;
    let mut i: usize = from;
    proof {
        lemma_point_of(text@);
        assert(text@.subrange(from as int, from as int) =~= Seq::<char>::empty());
    }
    while i < n && text.get_char(i) != '.'
        invariant
            from <= i <= n,
            n == text@.len(),
            from == whole_from(text@),
            cap == limit + 1,
            forall|k: int| 0 <= k < i ==> text@[k] != '.',
            all_digits(text@.subrange(from as int, i as int)),
            whole == least(digits_value(text@.subrange(from as int, i as int)), cap as nat),
        decreases n - i,
    {
        let d = match digit_of(text.get_char(i)) {
            Some(d) => d,
            None => {
                proof {
                    lemma_point_of(text@);
                    let p = point_of(text@);
                    if p <= i {
                        assert(text@[p] != '.');
                    }
                    assert(whole_of(text@)[i - from] == text@[i as int]);
                }
                return None;
            },
        };
        proof {
            let before = text@.subrange(from as int, i as int);
            let after = text@.subrange(from as int, i + 1);
            assert(after.drop_last() =~= before);
            assert(after.last() == text@[i as int]);
            assert forall|k: int| 0 <= k < after.len() implies is_digit(#[trigger] after[k]) by {
                if k < before.len() {
                    assert(after[k] == before[k]);
                }
            }
        }
        let next = whole * 10 + d as u64;
        whole = if next > cap {
            cap
        } else {
            next
        };
        i += 1;
    }
    let point = i;
    proof {
        assert(is_point(text@, point as int));
        lemma_point_unique(text@, point as int);
    }
    if point == from {
        return None;
    }
    let mut nonzero = false;
    if point < n {
        if point + 1 == n {
            return None;
        }
        let mut j: usize = point + 1;
        while j < n
            invariant
                point < j <= n,
                n == text@.len(),
                point_of(text@) == point,
                forall|k: int| point < k < j ==> is_digit(#[trigger] text@[k]),
                nonzero == exists|k: int| point < k < j && #[trigger] text@[k] != '0',
            decreases n - j,
        {
            let c = text.get_char(j);
            match digit_of(c) {
                Some(_) => {},
                None => {
                    proof {
                        assert(fraction_of(text@)[j - point - 1] == text@[j as int]);
                    }
                    return None;
                },
            }
            if c != '0' {
                nonzero = true;
            }
            j += 1;
        }
        proof {
            let fraction = fraction_of(text@);
            assert forall|k: int| 0 <= k < fraction.len() implies is_digit(
                #[trigger] fraction[k],
            ) by {
                assert(fraction[k] == text@[point + 1 + k]);
            }
            if nonzero {
                let k = choose|k: int| point < k < n && #[trigger] text@[k] != '0';
                assert(fraction[k - point - 1] == text@[k]);
            } else {
                assert forall|k: int| 0 <= k < fraction.len() implies #[trigger] fraction[k]
                    == '0' by {
                    assert(fraction[k] == text@[point + 1 + k]);
                }
            }
        }
    }
    proof {
        assert(whole_of(text@) =~= text@.subrange(from as int, point as int));
    }
    if negative {
        Some(false)
    } else {
        Some(whole > limit as u64 || (whole == limit as u64 && nonzero))
    }
}

} // verus!
