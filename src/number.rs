//! Decimal numbers in text, read as whole numbers in a fixed unit.
//!
//! A number is an optional `-`, then decimal digits with at most one `.` among them, and at
//! least one digit. Read with `places` decimal places, its value is scaled by ten to that
//! power; further fractional digits are cut off.

use crate::text::digit_value;
use vstd::prelude::*;
use vstd::string::*;

verus! {

pub open spec fn is_digit(c: char) -> bool {
    '0' <= c <= '9'
}

pub open spec fn all_digits(s: Seq<char>) -> bool {
    forall|i: int| 0 <= i < s.len() ==> is_digit(#[trigger] s[i])
}

/// The value of a run of decimal digits, most significant first.
pub open spec fn digits_value(s: Seq<char>) -> int
    decreases s.len(),
{
    if s.len() == 0 {
        0
    } else {
        digits_value(s.drop_last()) * 10 + digit_value(s.last())
    }
}

pub open spec fn is_negative(s: Seq<char>) -> bool {
    s.len() > 0 && s[0] == '-'
}

/// The number without its sign.
pub open spec fn magnitude_text(s: Seq<char>) -> Seq<char> {
    if is_negative(s) {
        s.drop_first()
    } else {
        s
    }
}

/// The index of the first `.` in `b`, or its length where it has none.
pub open spec fn first_dot(b: Seq<char>) -> int
    decreases b.len(),
{
    if b.len() == 0 {
        0
    } else if b[0] == '.' {
        0
    } else {
        1 + first_dot(b.drop_first())
    }
}

pub open spec fn whole_digits(b: Seq<char>) -> Seq<char> {
    b.take(first_dot(b))
}

pub open spec fn fraction_digits(b: Seq<char>) -> Seq<char> {
    if first_dot(b) < b.len() {
        b.skip(first_dot(b) + 1)
    } else {
        Seq::empty()
    }
}

/// The digits whose value is the number scaled by ten to the power `places`: the whole
/// digits, then the first `places` fractional digits, padded with zeros.
pub open spec fn scaled_digits(whole: Seq<char>, fraction: Seq<char>, places: nat) -> Seq<char> {
    if fraction.len() >= places {
        whole + fraction.take(places as int)
    } else {
        whole + fraction + Seq::new((places - fraction.len()) as nat, |i: int| '0')
    }
}

pub open spec fn well_formed_number(s: Seq<char>) -> bool {
    let b = magnitude_text(s);
    &&& all_digits(whole_digits(b))
    &&& all_digits(fraction_digits(b))
    &&& whole_digits(b).len() + fraction_digits(b).len() > 0
}

/// The number that `s` spells, scaled by ten to the power `places`; `None` where `s` is no
/// number or its scaled value does not fit in an `i64`.
pub open spec fn fixed_point_value(s: Seq<char>, places: nat) -> Option<int> {
    let b = magnitude_text(s);
    let m = digits_value(scaled_digits(whole_digits(b), fraction_digits(b), places));
    if !well_formed_number(s) || m > i64::MAX {
        None
    } else if is_negative(s) {
        Some(-m)
    } else {
        Some(m)
    }
}

proof fn lemma_first_dot(b: Seq<char>, k: int)
    requires
        0 <= k <= b.len(),
        k < b.len() ==> b[k] == '.',
        forall|i: int| 0 <= i < k ==> b[i] != '.',
    ensures
        first_dot(b) == k,
    decreases k,
{
    if k > 0 {
        lemma_first_dot(b.drop_first(), k - 1);
    }
}

proof fn lemma_digits_value_nonneg(s: Seq<char>)
    requires
        all_digits(s),
    ensures
        digits_value(s) >= 0,
    decreases s.len(),
{
    if s.len() > 0 {
        assert(is_digit(s[s.len() - 1]));
        lemma_digits_value_nonneg(s.drop_last());
    }
}

/// A longer run of digits is worth at least as much as its prefix.
proof fn lemma_digits_value_prefix(s: Seq<char>, j: int)
    requires
        all_digits(s),
        0 <= j <= s.len(),
    ensures
        digits_value(s.take(j)) <= digits_value(s),
    decreases s.len() - j,
{
    if j < s.len() {
        assert(s.drop_last().take(j) =~= s.take(j));
        lemma_digits_value_prefix(s.drop_last(), j);
        lemma_digits_value_nonneg(s.drop_last());
        assert(is_digit(s[s.len() - 1]));
    } else {
        assert(s.take(j) =~= s);
    }
}

proof fn lemma_digits_extend(s: Seq<char>, k: int)
    requires
        0 <= k < s.len(),
    ensures
        digits_value(s.take(k + 1)) == digits_value(s.take(k)) * 10 + digit_value(s[k]),
{
    assert(s.take(k + 1).drop_last() =~= s.take(k));
}

/// Where the dot of the number in `b` stands, once `b` is checked to hold nothing but digits
/// and at most one dot.
fn locate_dot(t: &str, start: usize) -> (r: Option<usize>)
    requires
        start <= t@.len(),
    ensures
        ({
            let b = t@.skip(start as int);
            &&& r matches Some(d) ==> d == first_dot(b) && all_digits(whole_digits(b))
                && all_digits(fraction_digits(b))
            &&& r is None ==> !(all_digits(whole_digits(b)) && all_digits(fraction_digits(b)))
        }),
{
    let n = t.unicode_len();
    let ghost b = t@.skip(start as int);
    let mut dot: usize = n - start;
    let mut j: usize = 0;
    while j < n - start
        invariant
            b =~= t@.skip(start as int),
            n == t@.len(),
            start <= n,
            j <= n - start,
            dot <= n - start,
            dot < j ==> b[dot as int] == '.',
            dot >= j ==> dot == n - start,
            forall|i: int| 0 <= i < j && i < dot ==> b[i] != '.',
            forall|i: int| 0 <= i < j && i != dot ==> is_digit(#[trigger] b[i]),
        decreases n - start - j,
    {
        let c = t.get_char(start + j);
        if c == '.' {
            if dot < j {
                proof {
                    lemma_first_dot(b, dot as int);
                    assert(fraction_digits(b)[j - dot - 1] == b[j as int]);
                }
                return None;
            }
            dot = j;
        } else if !('0' <= c && c <= '9') {
            proof {
                if dot < j {
                    lemma_first_dot(b, dot as int);
                    assert(fraction_digits(b)[j - dot - 1] == b[j as int]);
                } else {
                    lemma_first_dot_after(b, j as int);
                    lemma_first_dot_is_dot(b);
                    assert(whole_digits(b)[j as int] == b[j as int]);
                }
            }
            return None;
        }
        j = j + 1;
    }
    proof {
        lemma_first_dot(b, dot as int);
        let whole = whole_digits(b);
        let fraction = fraction_digits(b);
        assert forall|i: int| 0 <= i < whole.len() implies is_digit(#[trigger] whole[i]) by {
            assert(whole[i] == b[i]);
        }
        if dot < n - start {
            assert forall|i: int| 0 <= i < fraction.len() implies is_digit(
                #[trigger] fraction[i],
            ) by {
                assert(fraction[i] == b[dot + 1 + i]);
            }
        }
    }
    Some(dot)
}

proof fn lemma_first_dot_after(b: Seq<char>, j: int)
    requires
        0 <= j < b.len(),
        forall|i: int| 0 <= i <= j ==> b[i] != '.',
    ensures
        first_dot(b) > j,
    decreases j,
{
    lemma_first_dot_is_dot(b.drop_first());
    if j > 0 {
        lemma_first_dot_after(b.drop_first(), j - 1);
    }
}

proof fn lemma_first_dot_is_dot(b: Seq<char>)
    ensures
        0 <= first_dot(b) <= b.len(),
        first_dot(b) < b.len() ==> b[first_dot(b)] == '.',
    decreases b.len(),
{
    if b.len() > 0 && b[0] != '.' {
        lemma_first_dot_is_dot(b.drop_first());
    }
}

/// The value of a run of digits, where it fits in an `i64`.
fn digits_to_i64(digits: &Vec<char>) -> (r: Option<i64>)
    requires
        all_digits(digits@),
    ensures
        r matches Some(v) ==> v as int == digits_value(digits@) && v >= 0,
        r is None ==> digits_value(digits@) > i64::MAX,
{
    let ghost scaled = digits@;
    let mut value: i64 = 0;
    let mut k: usize = 0;
    while k < digits.len()
        invariant
            digits@ == scaled,
            all_digits(scaled),
            k <= digits.len(),
            value as int == digits_value(scaled.take(k as int)),
            value >= 0,
        decreases digits.len() - k,
    {
        assert(is_digit(scaled[k as int]));
        let d = digits[k] as u32 - '0' as u32;
        proof {
            lemma_digits_extend(scaled, k as int);
        }
        match value.checked_mul(10) {
            Some(v) => match v.checked_add(d as i64) {
                Some(w) => {
                    value = w;
                },
                None => {
                    proof {
                        lemma_digits_value_prefix(scaled, k + 1);
                    }
                    return None;
                },
            },
            None => {
                proof {
                    lemma_digits_value_prefix(scaled, k + 1);
                }
                return None;
            },
        }
        k = k + 1;
    }
    proof {
        assert(scaled.take(digits.len() as int) =~= scaled);
    }
    Some(value)
}

/// The digits of the number in `t`, from `start` on, scaled to `places` decimal places.
fn scaled_digit_chars(t: &str, start: usize, dot: usize, places: usize) -> (r: Vec<char>)
    requires
        start <= t@.len(),
        dot == first_dot(t@.skip(start as int)),
    ensures
        r@ == scaled_digits(
            whole_digits(t@.skip(start as int)),
            fraction_digits(t@.skip(start as int)),
            places as nat,
        ),
{
    let n = t.unicode_len();
    let ghost b = t@.skip(start as int);
    proof {
        lemma_first_dot_is_dot(b);
    }
    let ghost whole = whole_digits(b);
    let ghost fraction = fraction_digits(b);
    let fraction_len: usize = if dot < n - start { n - start - dot - 1 } else { 0 };
    assert(fraction.len() == fraction_len);
    let mut digits: Vec<char> = Vec::new();
    let mut k: usize = 0;
    while k < dot
        invariant
            b =~= t@.skip(start as int),
            n == t@.len(),
            start + dot <= n,
            whole =~= b.take(dot as int),
            k <= dot,
            digits@ =~= whole.take(k as int),
        decreases dot - k,
    {
        digits.push(t.get_char(start + k));
        k = k + 1;
    }
    assert(whole.take(dot as int) =~= whole);
    let kept: usize = if fraction_len < places { fraction_len } else { places };
    let mut k: usize = 0;
    while k < kept
        invariant
            b =~= t@.skip(start as int),
            n == t@.len(),
            start <= n,
            dot <= n - start,
            fraction_len > 0 ==> dot < n - start,
            fraction == (if dot < n - start { b.skip(dot + 1) } else { Seq::<char>::empty() }),
            fraction.len() == fraction_len,
            kept <= fraction_len,
            k <= kept,
            digits@ =~= whole + fraction.take(k as int),
        decreases kept - k,
    {
        digits.push(t.get_char(start + dot + 1 + k));
        k = k + 1;
    }
    let mut k: usize = kept;
    while k < places
        invariant
            kept <= k <= places,
            kept == (if fraction_len < places { fraction_len } else { places }),
            digits@ =~= whole + fraction.take(kept as int) + Seq::new(
                (k - kept) as nat,
                |i: int| '0',
            ),
        decreases places - k,
    {
        digits.push('0');
        k = k + 1;
    }
    proof {
        if fraction.len() < places {
            assert(fraction.take(kept as int) =~= fraction);
        }
        assert(digits@ =~= scaled_digits(whole, fraction, places as nat));
    }
    digits
}

/// Reads `t` as a number with `places` decimal places.
pub fn parse_fixed_point(t: &str, places: usize) -> (r: Option<i64>)
    ensures
        r matches Some(v) ==> fixed_point_value(t@, places as nat) == Some(v as int),
        r is None ==> fixed_point_value(t@, places as nat) is None,
        r matches Some(v) ==> v > i64::MIN,
{
    let n = t.unicode_len();
    let negative = n > 0 && t.get_char(0) == '-';
    let start: usize = if negative { 1 } else { 0 };
    let ghost b = magnitude_text(t@);
    proof {
        if negative {
            assert(b =~= t@.skip(1));
        } else {
            assert(b =~= t@.skip(0));
        }
    }
    let dot = match locate_dot(t, start) {
        Some(d) => d,
        None => return None,
    };
    proof {
        lemma_first_dot_is_dot(b);
    }
    let fraction_len: usize = if dot < n - start { n - start - dot - 1 } else { 0 };
    assert(fraction_digits(b).len() == fraction_len);
    if dot + fraction_len == 0 {
        return None;
    }
    let digits = scaled_digit_chars(t, start, dot, places);
    proof {
        let whole = whole_digits(b);
        let fraction = fraction_digits(b);
        let scaled = digits@;
        assert forall|i: int| 0 <= i < scaled.len() implies is_digit(#[trigger] scaled[i]) by {
            if i < whole.len() {
                assert(scaled[i] == whole[i]);
            } else if i < whole.len() + fraction.len() && i - whole.len() < places {
                assert(scaled[i] == fraction[i - whole.len()]);
            }
        }
    }
    match digits_to_i64(&digits) {
        Some(value) => {
            if negative {
                Some(-value)
            } else {
                Some(value)
            }
        },
        None => None,
    }
}

} // verus!
