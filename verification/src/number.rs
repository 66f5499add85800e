//! Exact decimal numbers and their parsing.
//!
//! Quote pages carry plain decimal numerals: an optional sign, digits, and
//! at most one decimal point. A parsed value is kept exactly, as a sign, an
//! integer mantissa and a count of fraction digits, so `"-0.50"` becomes
//! `-50 / 10^2`. A numeral whose mantissa does not fit in 64 bits, or any
//! other text, is rejected.

use vstd::prelude::*;
use crate::text::prefix_before_spec;

verus! {

/// An exact decimal value: `mant / 10^scale`, negated when `neg` is set.
#[derive(Clone, Copy, Debug, PartialEq, Eq, Structural)]
pub struct Decimal {
    pub neg: bool,
    pub mant: u64,
    pub scale: u64,
}

impl Decimal {
    /// The value zero, written with one fraction digit (`0.0`).
    pub fn zero() -> (r: Decimal)
        ensures
            r == (Decimal { neg: false, mant: 0, scale: 1 }),
    {
        Decimal { neg: false, mant: 0, scale: 1 }
    }
}

pub open spec fn is_digit_spec(c: char) -> bool {
    0x30 <= c as u32 && c as u32 <= 0x39
}

pub open spec fn digit_value(c: char) -> int {
    c as u32 - 0x30
}

pub open spec fn all_digits(s: Seq<char>) -> bool {
    forall|i: int| 0 <= i < s.len() ==> is_digit_spec(s[i])
}

/// The integer denoted by a digit string, most significant digit first.
pub open spec fn digits_int(s: Seq<char>) -> int
    decreases s.len(),
{
    if s.len() == 0 {
        0
    } else {
        digits_int(s.drop_last()) * 10 + digit_value(s.last())
    }
}

/// The digits before the decimal point; the whole numeral when there is
/// no point.
pub open spec fn int_part(s: Seq<char>) -> Seq<char> {
    prefix_before_spec(s, '.')
}

pub open spec fn has_dot(s: Seq<char>) -> bool {
    int_part(s).len() < s.len()
}

/// The digits after the decimal point; empty when there is no point.
pub open spec fn frac_part(s: Seq<char>) -> Seq<char> {
    if has_dot(s) {
        s.skip(int_part(s).len() as int + 1)
    } else {
        Seq::empty()
    }
}

/// An unsigned numeral: digit parts around at most one decimal point, at
/// least one digit in all, and a mantissa that fits in 64 bits.
pub open spec fn spec_parse_unsigned(b: Seq<char>, neg: bool) -> Option<Decimal> {
    let ip = int_part(b);
    let fp = frac_part(b);
    if all_digits(ip) && all_digits(fp) && ip.len() + fp.len() >= 1 && digits_int(ip + fp)
        <= u64::MAX && fp.len() <= u64::MAX {
        Some(
            Decimal {
                neg,
                mant: digits_int(ip + fp) as u64,
                scale: fp.len() as u64,
            },
        )
    } else {
        None
    }
}

/// The numeral grammar accepted by the parser: an optional `+` or `-`
/// sign, then digits with at most one decimal point.
pub open spec fn spec_parse_number(s: Seq<char>) -> Option<Decimal> {
    if s.len() > 0 && (s[0] == '-' || s[0] == '+') {
        spec_parse_unsigned(s.drop_first(), s[0] == '-')
    } else {
        spec_parse_unsigned(s, false)
    }
}

pub fn is_digit(c: char) -> (r: bool)
    ensures
        r == is_digit_spec(c),
{
    let u: u32 = c as u32;
    0x30 <= u && u <= 0x39
}

proof fn lemma_prefix_before_take(s: Seq<char>, c: char)
    ensures
        prefix_before_spec(s, c).len() <= s.len(),
        prefix_before_spec(s, c) == s.take(prefix_before_spec(s, c).len() as int),
        prefix_before_spec(s, c).len() < s.len() ==> s[prefix_before_spec(s, c).len() as int]
            == c,
        forall|j: int| 0 <= j < prefix_before_spec(s, c).len() ==> s[j] != c,
    decreases s.len(),
{
    let p = prefix_before_spec(s, c);
    if s.len() == 0 {
        assert(p =~= s.take(p.len() as int));
    } else if s[0] == c {
        assert(p =~= s.take(0));
    } else {
        lemma_prefix_before_take(s.drop_first(), c);
        let q = prefix_before_spec(s.drop_first(), c);
        assert(p == seq![s[0]] + q);
        assert(p.len() == 1 + q.len());
        assert(q == s.drop_first().take(q.len() as int));
        assert(p =~= s.take(p.len() as int));
        assert forall|j: int| 0 <= j < p.len() implies s[j] != c by {
            if j > 0 {
                assert(s.drop_first()[j - 1] != c);
            }
        }
    }
}

proof fn lemma_digits_int_nonneg(s: Seq<char>)
    requires
        all_digits(s),
    ensures
        digits_int(s) >= 0,
    decreases s.len(),
{
    if s.len() > 0 {
        assert(all_digits(s.drop_last()));
        lemma_digits_int_nonneg(s.drop_last());
    }
}

proof fn lemma_digits_int_push(q: Seq<char>, x: char)
    ensures
        digits_int(q.push(x)) == digits_int(q) * 10 + digit_value(x),
{
    assert(q.push(x).drop_last() =~= q);
    assert(q.push(x).last() == x);
}

proof fn lemma_digits_int_prefix_le(s: Seq<char>, k: int)
    requires
        all_digits(s),
        0 <= k <= s.len(),
    ensures
        digits_int(s.take(k)) <= digits_int(s),
    decreases s.len(),
{
    if k == s.len() {
        assert(s.take(k) =~= s);
    } else {
        let d = s.drop_last();
        assert(all_digits(d));
        assert(s.take(k) =~= d.take(k));
        lemma_digits_int_prefix_le(d, k);
        lemma_digits_int_nonneg(d);
        assert(digits_int(s) == digits_int(d) * 10 + digit_value(s.last()));
        assert(digit_value(s.last()) >= 0);
        assert(digits_int(d) * 10 >= digits_int(d));
    }
}

proof fn lemma_int_part_at(b: Seq<char>, d: int)
    requires
        0 <= d <= b.len(),
        forall|j: int| 0 <= j < d ==> b[j] != '.',
        d < b.len() ==> b[d] == '.',
    ensures
        int_part(b).len() == d,
        int_part(b) == b.take(d),
{
    lemma_prefix_before_take(b, '.');
    let p = prefix_before_spec(b, '.');
    if p.len() < d {
        assert(b[p.len() as int] == '.');
    }
    if d < p.len() {
        assert(b[d] != '.');
    }
}

proof fn lemma_mul10_add_over(m: int, d: int)
    requires
        0 <= d <= 9,
        m > (u64::MAX - d) / 10,
    ensures
        m * 10 + d > u64::MAX,
{
    let q = (u64::MAX - d) / 10;
    vstd::arithmetic::div_mod::lemma_fundamental_div_mod(u64::MAX - d, 10);
    vstd::arithmetic::div_mod::lemma_mod_bound(u64::MAX - d, 10);
    vstd::arithmetic::mul::lemma_mul_inequality(q + 1, m, 10);
}

proof fn lemma_mul10_add_ok(m: int, d: int)
    requires
        0 <= d <= 9,
        0 <= m,
        m <= (u64::MAX - d) / 10,
    ensures
        0 <= m * 10 + d <= u64::MAX,
{
    let q = (u64::MAX - d) / 10;
    vstd::arithmetic::div_mod::lemma_fundamental_div_mod(u64::MAX - d, 10);
    vstd::arithmetic::div_mod::lemma_mod_bound(u64::MAX - d, 10);
    vstd::arithmetic::mul::lemma_mul_inequality(m, q, 10);
    vstd::arithmetic::mul::lemma_mul_nonnegative(m, 10);
}

/// Parse a decimal numeral: an optional `+` or `-` sign, then digits with
/// at most one decimal point and at least one digit. Anything else, or a
/// mantissa over 64 bits, is `None`.
#[verifier::loop_isolation(false)]
#[verifier::spinoff_prover]
#[verifier::rlimit(100)]
pub fn parse_number(v: &Vec<char>) -> (r: Option<Decimal>)
    ensures
        r == spec_parse_number(v@),
{
    let n: usize = v.len();
    let mut start: usize = 0;
    let mut neg: bool = false;
    if n > 0 && (v[0] == '-' || v[0] == '+') {
        neg = v[0] == '-';
        start = 1;
    }
    let ghost body = v@.skip(start as int);
    proof {
        if v@.len() > 0 && (v@[0] == '-' || v@[0] == '+') {
            assert(v@.drop_first() =~= v@.skip(1));
        } else {
            assert(v@.skip(0) =~= v@);
        }
        assert(spec_parse_number(v@) == spec_parse_unsigned(body, neg));
        assert(!is_digit_spec('.'));
    }
    // First scan: find the decimal point and check every other character
    // is a digit. `dot == n` means no point has been seen.
    let mut dot: usize = n;
    let mut i: usize = start;
    while i < n
        invariant
            start <= i <= n,
            dot == n || (start <= dot && dot < i && v@[dot as int] == '.'),
            forall|j: int| start <= j < i && j != dot ==> is_digit_spec(#[trigger] v@[j]),
        decreases n - i,
    {
        let c = v[i];
        if c == '.' {
            if dot < n {
                proof {
                    let dd = dot - start;
                    lemma_int_part_at(body, dd as int);
                    assert(has_dot(body));
                    assert(frac_part(body)[i - dot - 1] == '.');
                    assert(!all_digits(frac_part(body)));
                }
                return None;
            }
            dot = i;
        } else if !is_digit(c) {
            proof {
                let ip = int_part(body);
                let fp = frac_part(body);
                lemma_prefix_before_take(body, '.');
                if dot == n {
                    if ip.len() > i - start {
                        assert(ip[i - start] == body[i - start]);
                        assert(!all_digits(ip));
                    } else {
                        if ip.len() < body.len() {
                            assert(body[ip.len() as int] == '.');
                            assert(v@[start + ip.len()] == '.');
                            assert(start + ip.len() <= i);
                            assert(false);
                        } else {
                            assert(ip =~= body);
                            assert(!all_digits(ip));
                        }
                    }
                } else {
                    let dd = dot - start;
                    lemma_int_part_at(body, dd as int);
                    assert(frac_part(body)[i - dot - 1] == body[i - start]);
                    assert(!all_digits(frac_part(body)));
                }
            }
            return None;
        }
        i = i + 1;
    }
    let ghost dd: int = if dot < n { dot - start } else { n - start };
    proof {
        lemma_int_part_at(body, dd);
        if dot == n {
            assert(int_part(body) =~= body);
            assert(!has_dot(body));
        } else {
            assert(has_dot(body));
        }
    }
    let ghost ip = int_part(body);
    let ghost fp = frac_part(body);
    let ghost digits = ip + fp;
    proof {
        assert(all_digits(ip));
        assert(all_digits(fp));
        assert(forall|j: int| 0 <= j < digits.len() ==> is_digit_spec(#[trigger] digits[j]));
    }
    let digit_count: usize = if dot < n {
        n - start - 1
    } else {
        n - start
    };
    proof {
        assert(digits.len() == digit_count);
    }
    if digit_count == 0 {
        return None;
    }
    // Second scan: accumulate the mantissa over the digits, skipping the
    // decimal point, and reject a value that does not fit in 64 bits.
    let mut mant: u64 = 0;
    let mut k: usize = 0;
    let mut p: usize = start;
    proof {
        assert(digits.take(0) =~= Seq::<char>::empty());
    }
    while p < n
        invariant
            start <= p <= n,
            k == if dot < n && p > dot {
                p - start - 1
            } else {
                p - start
            },
            k <= digits.len(),
            mant == digits_int(digits.take(k as int)),
        decreases n - p,
    {
        if !(dot < n && p == dot) {
            let c = v[p];
            proof {
                if dot < n && p > dot {
                    assert(digits[k as int] == fp[k - dd]);
                    assert(fp[k - dd] == body[k + 1]);
                    assert(body[k + 1] == v@[p as int]);
                } else {
                    assert(digits[k as int] == ip[k as int]);
                    assert(ip[k as int] == body[k as int]);
                    assert(body[k as int] == v@[p as int]);
                }
                assert(digits[k as int] == c);
                assert(is_digit_spec(c));
            }
            let d64: u64 = (c as u32 - 0x30) as u64;
            proof {
                assert(digit_value(c) == d64);
                assert(digits.take(k as int).push(digits[k as int]) =~= digits.take(
                    k as int + 1,
                ));
                lemma_digits_int_push(digits.take(k as int), c);
            }
            if mant > (u64::MAX - d64) / 10 {
                proof {
                    lemma_mul10_add_over(mant as int, d64 as int);
                    lemma_digits_int_prefix_le(digits, k as int + 1);
                    assert(digits_int(digits) > u64::MAX);
                }
                return None;
            }
            proof {
                lemma_mul10_add_ok(mant as int, d64 as int);
            }
            mant = mant * 10 + d64;
            k = k + 1;
        }
        p = p + 1;
    }
    proof {
        assert(k == digits.len());
        assert(digits.take(k as int) =~= digits);
        assert(digits_int(digits) == mant);
    }
    let scale: u64 = if dot < n {
        (n - dot - 1) as u64
    } else {
        0
    };
    proof {
        assert(fp.len() == scale);
    }
    Some(Decimal { neg, mant, scale })
}

} // verus!
