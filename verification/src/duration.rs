//! Parsing of human-readable and protobuf duration strings: "10s", "120s",
//! "500ms", "1m", "15.5s", or a bare number of seconds.
//!
//! The number is read in the decimal syntax of `f64::from_str` (optional sign,
//! digits with an optional point, optional exponent) and its value is taken
//! exactly. A duration is accepted when it is not negative and at most one
//! year; it is rounded to the nearest nanosecond, halves upward.

use vstd::prelude::*;
use crate::text::{is_ws, lemma_trim_fixed, lemma_trim_idempotent, lemma_trim_shape, trim, chars_of, trim_bounds};
use crate::time::Duration;

verus! {

/// One year (365 days), the longest duration accepted, in nanoseconds.
pub const MAX_DURATION_NANOS: u64 = 31_536_000_000_000_000;

/// Exponent magnitudes beyond this are held at it while parsing; no value
/// with such an exponent is both nonzero and in range.
pub const EXPONENT_CAP: u128 = 100_000_000_000_000_000_000;

/// The unit a duration string names by its suffix.
#[derive(Debug, Clone, Copy, PartialEq, Eq, Structural)]
pub enum DurationUnit {
    Millis,
    Seconds,
    Minutes,
}

pub open spec fn is_digit(c: char) -> bool {
    48 <= (c as u32) && (c as u32) <= 57
}

pub open spec fn digit_of(c: char) -> nat {
    ((c as u32) - 48) as nat
}

pub open spec fn all_digits(s: Seq<char>) -> bool {
    forall|i: int| 0 <= i < s.len() ==> is_digit(#[trigger] s[i])
}

pub open spec fn all_zeros(s: Seq<char>) -> bool {
    forall|i: int| 0 <= i < s.len() ==> (#[trigger] s[i] as u32) == 48
}

/// The number that the decimal digits `s` spell.
pub open spec fn digits_value(s: Seq<char>) -> nat
    decreases s.len(),
{
    if s.len() == 0 {
        0
    } else {
        digits_value(s.drop_last()) * 10 + digit_of(s.last())
    }
}

pub open spec fn pow10(n: nat) -> nat
    decreases n,
{
    if n == 0 {
        1
    } else {
        10 * pow10((n - 1) as nat)
    }
}

/// 1 when `s` begins with a sign character, else 0.
pub open spec fn sign_len(s: Seq<char>) -> int {
    if s.len() > 0 && (s[0] == '+' || s[0] == '-') {
        1
    } else {
        0
    }
}

/// The first index at or after `i` holding `a` or `b`, or `s.len()`.
pub open spec fn find_from(s: Seq<char>, i: int, a: char, b: char) -> int
    decreases s.len() - i,
{
    if i < 0 || i >= s.len() {
        s.len() as int
    } else if s[i] == a || s[i] == b {
        i
    } else {
        find_from(s, i + 1, a, b)
    }
}

/// A number in the decimal syntax of `f64::from_str`
/// (`[+-]? (digits | digits '.' digits? | '.' digits) ([eE] [+-]? digits)?`),
/// as `(negative, significand digits, power of ten)`: its magnitude is
/// `digits_value(digits) * 10^power`.
pub open spec fn parse_decimal(s: Seq<char>) -> Option<(bool, Seq<char>, int)> {
    let k = sign_len(s);
    let r = s.skip(k);
    let ep = find_from(r, 0, 'e', 'E');
    let m = r.take(ep);
    let dp = find_from(m, 0, '.', '.');
    let ip = m.take(dp);
    let fp = if dp < m.len() {
        m.skip(dp + 1)
    } else {
        Seq::<char>::empty()
    };
    let has_exp = ep < r.len();
    let x = if has_exp {
        r.skip(ep + 1)
    } else {
        Seq::<char>::empty()
    };
    let xd = x.skip(sign_len(x));
    if all_digits(ip) && all_digits(fp) && ip.len() + fp.len() > 0 && (has_exp ==> (xd.len()
        > 0 && all_digits(xd))) {
        let e: int = if !has_exp {
            0
        } else if sign_len(x) == 1 && x[0] == '-' {
            -(digits_value(xd) as int)
        } else {
            digits_value(xd) as int
        };
        Some((k == 1 && s[0] == '-', ip + fp, e - fp.len()))
    } else {
        None
    }
}

pub open spec fn unit_shift(u: DurationUnit) -> int {
    match u {
        DurationUnit::Millis => 6,
        DurationUnit::Seconds => 9,
        DurationUnit::Minutes => 10,
    }
}

pub open spec fn unit_factor(u: DurationUnit) -> nat {
    match u {
        DurationUnit::Minutes => 6,
        _ => 1,
    }
}

/// The exact length in nanoseconds of `digits * 10^power` units `u`, as a
/// fraction `(numerator, denominator)`.
pub open spec fn exact_nanos(digits: Seq<char>, power: int, u: DurationUnit) -> (nat, nat) {
    let e = power + unit_shift(u);
    let v = unit_factor(u) * digits_value(digits);
    if e >= 0 {
        (v * pow10(e as nat), 1)
    } else {
        (v, pow10((-e) as nat))
    }
}

/// The duration of a parsed number of units `u`: zero when the number is
/// zero (of either sign); none when it is negative or longer than one year;
/// otherwise rounded to the nearest nanosecond, halves upward.
pub open spec fn decimal_duration(neg: bool, digits: Seq<char>, power: int, u: DurationUnit) -> Option<
    Duration,
> {
    let (num, den) = exact_nanos(digits, power, u);
    if num == 0 {
        Some(Duration { nanos: 0 })
    } else if neg || num > MAX_DURATION_NANOS * den {
        None
    } else {
        Some(Duration { nanos: ((2 * num + den) / (2 * den)) as u64 })
    }
}

/// The number part and unit of a trimmed duration string: a suffix `ms`, `s`
/// or `m` names the unit (the part before it is trimmed again); without one
/// the unit is seconds.
pub open spec fn split_unit(t: Seq<char>) -> (Seq<char>, DurationUnit) {
    let n = t.len();
    if n >= 2 && t[n - 2] == 'm' && t[n - 1] == 's' {
        (trim(t.take(n - 2)), DurationUnit::Millis)
    } else if n >= 1 && t[n - 1] == 's' {
        (trim(t.take(n - 1)), DurationUnit::Seconds)
    } else if n >= 1 && t[n - 1] == 'm' {
        (trim(t.take(n - 1)), DurationUnit::Minutes)
    } else {
        (t, DurationUnit::Seconds)
    }
}

/// The duration that the string `s` denotes, if it denotes one in range.
pub open spec fn spec_parse_duration(s: Seq<char>) -> Option<Duration> {
    let (body, unit) = split_unit(trim(s));
    match parse_decimal(body) {
        Some((neg, digits, power)) => decimal_duration(neg, digits, power, unit),
        None => None,
    }
}

/// The exponent `held` that parsing keeps stands for the exact `exact` of a
/// significand of `n` digits: equal, or both beyond the cap on the same side.
pub open spec fn exp_close(held: int, exact: int, n: nat) -> bool {
    ||| held == exact
    ||| (held >= EXPONENT_CAP - n && exact >= held)
    ||| (held <= -(EXPONENT_CAP as int) && exact <= held)
}

// ---------------------------------------------------------------------------
// Lemmas on digits and powers of ten.

proof fn lemma_pow10_pos(n: nat)
    ensures
        pow10(n) >= 1,
    decreases n,
{
    if n > 0 {
        lemma_pow10_pos((n - 1) as nat);
    }
}

proof fn lemma_pow10_add(a: nat, b: nat)
    ensures
        pow10(a + b) == pow10(a) * pow10(b),
    decreases b,
{
    if b > 0 {
        let b1 = (b - 1) as nat;
        lemma_pow10_add(a, b1);
        let pa = pow10(a);
        let pb1 = pow10(b1);
        assert(a + b1 == (a + b - 1) as nat);
        assert(pow10(a + b1) == pa * pb1);
        assert(pow10(a + b) == 10 * pow10((a + b - 1) as nat));
        assert(pow10(b) == 10 * pb1);
        assert(pa * (10 * pb1) == 10 * (pa * pb1)) by (nonlinear_arith);
    } else {
        assert(pow10(0) == 1);
        assert(a + b == a);
    }
}

proof fn lemma_pow10_mono(a: nat, b: nat)
    requires
        a <= b,
    ensures
        pow10(a) <= pow10(b),
    decreases b,
{
    if a < b {
        lemma_pow10_mono(a, (b - 1) as nat);
        lemma_pow10_pos((b - 1) as nat);
    }
}

proof fn lemma_value_append(a: Seq<char>, b: Seq<char>)
    ensures
        digits_value(a + b) == digits_value(a) * pow10(b.len()) + digits_value(b),
    decreases b.len(),
{
    if b.len() == 0 {
        assert(a + b =~= a);
        assert(pow10(0) == 1);
        assert(digits_value(b) == 0);
    } else {
        let b0 = b.drop_last();
        lemma_value_append(a, b0);
        assert((a + b).drop_last() =~= a + b0);
        assert((a + b).last() == b.last());
        assert(digits_value(a + b) == digits_value(a + b0) * 10 + digit_of(b.last()));
        assert(digits_value(b) == digits_value(b0) * 10 + digit_of(b.last()));
        let va = digits_value(a);
        let p0 = pow10(b0.len());
        assert(pow10(b.len()) == 10 * p0);
        assert((va * p0 + digits_value(b0)) * 10 == va * (10 * p0) + digits_value(b0) * 10)
            by (nonlinear_arith);
    }
}

proof fn lemma_value_lt(s: Seq<char>)
    requires
        all_digits(s),
    ensures
        digits_value(s) < pow10(s.len()),
    decreases s.len(),
{
    if s.len() > 0 {
        let s0 = s.drop_last();
        assert(all_digits(s0)) by {
            assert forall|i: int| 0 <= i < s0.len() implies is_digit(#[trigger] s0[i]) by {
                assert(s0[i] == s[i]);
            }
        }
        lemma_value_lt(s0);
        assert(is_digit(s[s.len() - 1]));
        assert(digits_value(s0) * 10 + 10 <= pow10(s0.len()) * 10) by (nonlinear_arith)
            requires
                digits_value(s0) < pow10(s0.len()),
        ;
    }
}

proof fn lemma_value_zeros(s: Seq<char>)
    requires
        all_zeros(s),
    ensures
        digits_value(s) == 0,
    decreases s.len(),
{
    if s.len() > 0 {
        let s0 = s.drop_last();
        assert(all_zeros(s0)) by {
            assert forall|i: int| 0 <= i < s0.len() implies (#[trigger] s0[i] as u32) == 48 by {
                assert(s0[i] == s[i]);
            }
        }
        lemma_value_zeros(s0);
        assert((s[s.len() - 1] as u32) == 48);
    }
}

proof fn lemma_value_nonzero(s: Seq<char>)
    requires
        all_digits(s),
        !all_zeros(s),
    ensures
        digits_value(s) > 0,
    decreases s.len(),
{
    let s0 = s.drop_last();
    if (s[s.len() - 1] as u32) == 48 {
        assert(!all_zeros(s0)) by {
            if all_zeros(s0) {
                assert forall|i: int| 0 <= i < s.len() implies (#[trigger] s[i] as u32) == 48 by {
                    if i < s.len() - 1 {
                        assert(s0[i] == s[i]);
                    }
                }
            }
        }
        assert(all_digits(s0)) by {
            assert forall|i: int| 0 <= i < s0.len() implies is_digit(#[trigger] s0[i]) by {
                assert(s0[i] == s[i]);
            }
        }
        lemma_value_nonzero(s0);
        assert(digits_value(s) == digits_value(s0) * 10 + digit_of(s.last()));
    } else {
        assert(is_digit(s[s.len() - 1]));
        assert(digits_value(s) == digits_value(s0) * 10 + digit_of(s.last()));
        assert(digit_of(s.last()) >= 1);
    }
}

/// A significand whose first digit is not zero is at least `10^(len-1)`.
proof fn lemma_value_lead(s: Seq<char>)
    requires
        all_digits(s),
        s.len() > 0,
        (s[0] as u32) != 48,
    ensures
        digits_value(s) >= pow10((s.len() - 1) as nat),
{
    let h = s.take(1);
    let t = s.skip(1);
    assert(s =~= h + t);
    lemma_value_append(h, t);
    assert(h.drop_last() =~= Seq::<char>::empty());
    assert(digits_value(Seq::<char>::empty()) == 0);
    assert(h.last() == s[0]);
    assert(digits_value(h) == digits_value(h.drop_last()) * 10 + digit_of(h.last()));
    assert(is_digit(s[0]));
    assert(digits_value(h) == digit_of(s[0]));
    assert(digits_value(h) >= 1);
    assert(digits_value(h) * pow10(t.len()) >= pow10(t.len())) by (nonlinear_arith)
        requires
            digits_value(h) >= 1,
    ;
}

// ---------------------------------------------------------------------------
// Scanning.

/// The characters `v[lo..hi]`.
fn char_range(v: &Vec<char>, lo: usize, hi: usize) -> (r: Vec<char>)
    requires
        lo <= hi <= v.len(),
    ensures
        r@ == v@.subrange(lo as int, hi as int),
{
    let mut r: Vec<char> = Vec::new();
    let mut i = lo;
    while i < hi
        invariant
            lo <= i <= hi <= v.len(),
            r@ == v@.subrange(lo as int, i as int),
        decreases hi - i,
    {
        r.push(v[i]);
        i = i + 1;
    }
    r
}

/// `v[lo..hi]` trimmed of whitespace.
fn trimmed_range(v: &Vec<char>, lo: usize, hi: usize) -> (r: Vec<char>)
    requires
        lo <= hi <= v.len(),
    ensures
        r@ == trim(v@.subrange(lo as int, hi as int)),
{
    let w = char_range(v, lo, hi);
    let (a, b) = trim_bounds(&w);
    char_range(&w, a, b)
}

/// The first index in `lo..hi` holding `a` or `b`, or `hi`.
fn find_in(v: &Vec<char>, lo: usize, hi: usize, a: char, b: char) -> (r: usize)
    requires
        lo <= hi <= v.len(),
    ensures
        r == lo + find_from(v@.subrange(lo as int, hi as int), 0, a, b),
        lo <= r <= hi,
{
    let ghost sub = v@.subrange(lo as int, hi as int);
    let mut i = lo;
    while i < hi
        invariant
            lo <= i <= hi <= v.len(),
            sub == v@.subrange(lo as int, hi as int),
            find_from(sub, 0, a, b) == find_from(sub, i - lo, a, b),
        decreases hi - i,
    {
        assert(sub[i - lo] == v@[i as int]);
        if v[i] == a || v[i] == b {
            return i;
        }
        i = i + 1;
    }
    i
}

fn is_digit_char(c: char) -> (b: bool)
    ensures
        b == is_digit(c),
{
    let u = c as u32;
    48 <= u && u <= 57
}

/// Whether `v[lo..hi]` consists of decimal digits.
fn all_digits_in(v: &Vec<char>, lo: usize, hi: usize) -> (b: bool)
    requires
        lo <= hi <= v.len(),
    ensures
        b == all_digits(v@.subrange(lo as int, hi as int)),
{
    let ghost sub = v@.subrange(lo as int, hi as int);
    let mut i = lo;
    while i < hi
        invariant
            lo <= i <= hi <= v.len(),
            sub == v@.subrange(lo as int, hi as int),
            forall|j: int| 0 <= j < i - lo ==> is_digit(#[trigger] sub[j]),
        decreases hi - i,
    {
        assert(sub[i - lo] == v@[i as int]);
        if !is_digit_char(v[i]) {
            return false;
        }
        i = i + 1;
    }
    true
}

/// The number the digits `v[lo..hi]` spell, held at `EXPONENT_CAP`.
fn capped_value(v: &Vec<char>, lo: usize, hi: usize) -> (x: u128)
    requires
        lo <= hi <= v.len(),
        all_digits(v@.subrange(lo as int, hi as int)),
    ensures
        x == if digits_value(v@.subrange(lo as int, hi as int)) < EXPONENT_CAP {
            digits_value(v@.subrange(lo as int, hi as int)) as int
        } else {
            EXPONENT_CAP as int
        },
{
    let ghost sub = v@.subrange(lo as int, hi as int);
    let mut acc: u128 = 0;
    let mut i = lo;
    while i < hi
        invariant
            lo <= i <= hi <= v.len(),
            sub == v@.subrange(lo as int, hi as int),
            all_digits(sub),
            acc == if digits_value(sub.take(i - lo)) < EXPONENT_CAP {
                digits_value(sub.take(i - lo)) as int
            } else {
                EXPONENT_CAP as int
            },
        decreases hi - i,
    {
        let ghost pre = sub.take(i - lo);
        let ghost nxt = sub.take(i - lo + 1);
        assert(nxt.drop_last() =~= pre);
        assert(nxt.last() == sub[i - lo]);
        assert(sub[i - lo] == v@[i as int]);
        assert(is_digit(sub[i - lo]));
        let d = (v[i] as u32 - 48) as u128;
        if acc < EXPONENT_CAP {
            let t = acc * 10 + d;
            acc = if t < EXPONENT_CAP {
                t
            } else {
                EXPONENT_CAP
            };
        }
        i = i + 1;
    }
    assert(sub.take(hi - lo) =~= sub);
    acc
}

/// Parses `v` as a decimal number (see `parse_decimal`). The power of ten
/// returned is exact unless the written exponent exceeds `EXPONENT_CAP`.
#[verifier::rlimit(60)]
#[verifier::spinoff_prover]
fn parse_decimal_chars(v: &Vec<char>) -> (r: Option<(bool, Vec<char>, i128)>)
    ensures
        r is None <==> parse_decimal(v@) is None,
        r is Some ==> {
            let (neg, ds, e) = r->Some_0;
            let (sneg, sds, se) = parse_decimal(v@)->Some_0;
            &&& neg == sneg
            &&& ds@ == sds
            &&& all_digits(ds@)
            &&& exp_close(e as int, se, ds@.len())
            &&& -(EXPONENT_CAP as int) - ds@.len() <= e <= EXPONENT_CAP
        },
{
    let ghost s = v@;
    let len = v.len();
    let k: usize = if len > 0 && (v[0] == '+' || v[0] == '-') {
        1
    } else {
        0
    };
    let neg = k == 1 && v[0] == '-';
    let ep = find_in(v, k, len, 'e', 'E');
    let dp = find_in(v, k, ep, '.', '.');
    let frac_lo = if dp < ep {
        dp + 1
    } else {
        ep
    };
    let ghost r = s.skip(k as int);
    let ghost m = r.take(ep - k);
    proof {
        assert(r =~= s.subrange(k as int, len as int));
        assert(m =~= s.subrange(k as int, ep as int));
        assert(m.take(dp - k) =~= s.subrange(k as int, dp as int));
        if dp < ep {
            assert(m.skip(dp - k + 1) =~= s.subrange(frac_lo as int, ep as int));
        } else {
            assert(s.subrange(frac_lo as int, ep as int) =~= Seq::<char>::empty());
        }
    }
    let int_ok = all_digits_in(v, k, dp);
    let frac_ok = all_digits_in(v, frac_lo, ep);
    if !int_ok || !frac_ok || (dp - k) + (ep - frac_lo) == 0 {
        return None;
    }
    let mut x: i128 = 0;
    if ep < len {
        let xs = ep + 1;
        let xk: usize = if xs < len && (v[xs] == '+' || v[xs] == '-') {
            1
        } else {
            0
        };
        let xlo = xs + xk;
        proof {
            let x_seq = r.skip(ep - k + 1);
            assert(x_seq =~= s.subrange(xs as int, len as int));
            assert(x_seq.skip(sign_len(x_seq)) =~= s.subrange(xlo as int, len as int));
        }
        if xlo >= len {
            return None;
        }
        if !all_digits_in(v, xlo, len) {
            return None;
        }
        let mag = capped_value(v, xlo, len);
        x = if xk == 1 && v[xs] == '-' {
            -(mag as i128)
        } else {
            mag as i128
        };
    }
    let mut ds = char_range(v, k, dp);
    let fr = char_range(v, frac_lo, ep);
    let ghost ip = ds@;
    let mut j: usize = 0;
    while j < fr.len()
        invariant
            j <= fr.len(),
            ds@ == ip + fr@.take(j as int),
        decreases fr.len() - j,
    {
        ds.push(fr[j]);
        j = j + 1;
    }
    proof {
        assert(fr@.take(fr.len() as int) =~= fr@);
        assert(all_digits(ds@)) by {
            assert forall|i: int| 0 <= i < ds@.len() implies is_digit(#[trigger] ds@[i]) by {
                if i < ip.len() {
                    assert(ds@[i] == ip[i]);
                } else {
                    assert(ds@[i] == fr@[i - ip.len()]);
                }
            }
        }
    }
    let fl = (ep - frac_lo) as i128;
    Some((neg, ds, x - fl))
}

// ---------------------------------------------------------------------------
// From a parsed number to nanoseconds.

/// The number of leading '0' characters of `v`.
fn leading_zeros(v: &Vec<char>) -> (z: usize)
    ensures
        z <= v.len(),
        all_zeros(v@.take(z as int)),
        z < v.len() ==> (v@[z as int] as u32) != 48,
{
    let mut z: usize = 0;
    while z < v.len() && (v[z] as u32) == 48
        invariant
            z <= v.len(),
            all_zeros(v@.take(z as int)),
        decreases v.len() - z,
    {
        proof {
            assert forall|i: int| 0 <= i < z + 1 implies (#[trigger] v@.take(z + 1)[i] as u32) == 48 by {
                if i < z {
                    assert(v@.take(z + 1)[i] == v@.take(z as int)[i]);
                }
            }
        }
        z = z + 1;
    }
    z
}

/// Whether every character of `v` is '0'.
fn only_zeros(v: &Vec<char>) -> (b: bool)
    ensures
        b == all_zeros(v@),
{
    let z = leading_zeros(v);
    proof {
        if z == v.len() {
            assert(v@.take(z as int) =~= v@);
        } else {
            assert(!((v@[z as int] as u32) == 48));
        }
    }
    z == v.len()
}

/// Leading zeros do not change the value of a significand.
proof fn lemma_strip_zeros(s: Seq<char>, z: int)
    requires
        all_digits(s),
        0 <= z <= s.len(),
        all_zeros(s.take(z)),
    ensures
        all_digits(s.skip(z)),
        digits_value(s) == digits_value(s.skip(z)),
        digits_value(s.skip(z)) < pow10((s.len() - z) as nat),
{
    let big = s.skip(z);
    assert(s =~= s.take(z) + big);
    lemma_value_append(s.take(z), big);
    lemma_value_zeros(s.take(z));
    assert(all_digits(big)) by {
        assert forall|i: int| 0 <= i < big.len() implies is_digit(#[trigger] big[i]) by {
            assert(big[i] == s[z + i]);
        }
    }
    lemma_value_lt(big);
    let zp = pow10(big.len());
    assert(0 * zp == 0) by (nonlinear_arith);
}

/// The number the digits `v[lo..hi]` spell (at most 18 of them).
fn small_value(v: &Vec<char>, lo: usize, hi: usize) -> (x: u64)
    requires
        lo <= hi <= v.len(),
        hi - lo <= 18,
        all_digits(v@.subrange(lo as int, hi as int)),
    ensures
        x == digits_value(v@.subrange(lo as int, hi as int)),
{
    let ghost sub = v@.subrange(lo as int, hi as int);
    let mut acc: u64 = 0;
    let mut i = lo;
    proof {
        reveal_with_fuel(pow10, 19);
        assert(pow10(18) == 1_000_000_000_000_000_000);
    }
    while i < hi
        invariant
            lo <= i <= hi <= v.len(),
            hi - lo <= 18,
            sub == v@.subrange(lo as int, hi as int),
            all_digits(sub),
            acc == digits_value(sub.take(i - lo)),
            pow10(18) == 1_000_000_000_000_000_000,
        decreases hi - i,
    {
        let ghost pre = sub.take(i - lo);
        let ghost nxt = sub.take(i - lo + 1);
        assert(nxt.drop_last() =~= pre);
        assert(nxt.last() == sub[i - lo]);
        assert(sub[i - lo] == v@[i as int]);
        assert(is_digit(sub[i - lo]));
        assert(all_digits(nxt)) by {
            assert forall|j: int| 0 <= j < nxt.len() implies is_digit(#[trigger] nxt[j]) by {
                assert(nxt[j] == sub[j]);
            }
        }
        proof {
            lemma_value_lt(nxt);
            lemma_pow10_mono(nxt.len(), 18);
        }
        let d = (v[i] as u32 - 48) as u64;
        acc = acc * 10 + d;
        i = i + 1;
    }
    assert(sub.take(hi - lo) =~= sub);
    acc
}

/// `floor(k * digits_value(p) / 10^len(p))`.
fn scaled_floor(p: &Vec<char>, k: u64) -> (f: u64)
    requires
        all_digits(p@),
        1 <= k <= 12,
    ensures
        f == (k * digits_value(p@)) / (pow10(p@.len()) as int),
        f < k,
{
    let n = p.len();
    let mut c: u64 = 0;
    let mut i: usize = n;
    let ghost mut low: nat = 0;
    assert(p@.skip(n as int) =~= Seq::<char>::empty());
    assert(digits_value(Seq::<char>::empty()) == 0);
    assert(pow10(0) == 1);
    while i > 0
        invariant
            i <= n == p.len(),
            all_digits(p@),
            1 <= k <= 12,
            c < k,
            low < pow10((n - i) as nat),
            k * digits_value(p@.skip(i as int)) == c * pow10((n - i) as nat) + low,
        decreases i,
    {
        i = i - 1;
        let ghost rest = p@.skip(i + 1);
        let ghost head = seq![p@[i as int]];
        let ghost kk = (n - i - 1) as nat;
        proof {
            assert(p@.skip(i as int) =~= head + rest);
            lemma_value_append(head, rest);
            assert(head.drop_last() =~= Seq::<char>::empty());
            assert(digits_value(Seq::<char>::empty()) == 0);
            assert(head.last() == p@[i as int]);
            assert(digits_value(head) == digits_value(head.drop_last()) * 10 + digit_of(head.last()));
            assert(is_digit(p@[i as int]));
            assert(digits_value(head) == digit_of(p@[i as int]));
            assert(pow10(kk + 1) == 10 * pow10(kk));
        }
        let d = (p[i] as u32 - 48) as u64;
        assert(d == digit_of(p@[i as int]) && d <= 9);
        assert(k * d <= 12 * 9) by (nonlinear_arith)
            requires
                k <= 12,
                d <= 9,
        ;
        let t = k * d + c;
        assert(t < 10 * k) by (nonlinear_arith)
            requires
                t == k * d + c,
                d <= 9,
                c < k,
        ;
        let ghost old_c = c;
        let ghost old_low = low;
        c = t / 10;
        proof {
            let r = t % 10;
            let pk = pow10(kk);
            low = (r * pk + old_low) as nat;
            assert(k * digits_value(p@.skip(i as int)) == k * (d * pk + digits_value(rest)));
            assert(k * (d * pk + digits_value(rest)) == (k * d) * pk + k * digits_value(rest))
                by (nonlinear_arith);
            assert(t == 10 * c + r);
            assert((k * d) * pk + old_c * pk + old_low == (10 * c + r) * pk + old_low) by (nonlinear_arith)
                requires
                    t == k * d + old_c,
                    t == 10 * c + r,
            ;
            assert((10 * c + r) * pk == c * (10 * pk) + r * pk) by (nonlinear_arith);
            assert(r * pk + old_low < 10 * pk) by (nonlinear_arith)
                requires
                    r <= 9,
                    old_low < pk,
            ;
        }
    }
    proof {
        assert(p@.skip(0) =~= p@);
        let pn = pow10(n as nat);
        lemma_pow10_pos(n as nat);
        assert((c * pn + low) / (pn as int) == c) by (nonlinear_arith)
            requires
                pn >= 1,
                low < pn,
        ;
    }
    c
}

/// Round-half-up of `m * (h + r / d)` in terms of `f = floor(2 m r / d)`.
proof fn lemma_round(m: nat, h: nat, r: nat, d: nat)
    requires
        d >= 1,
        r < d,
    ensures
        (2 * (m * (h * d + r)) + d) / (2 * d) == m * h + ((2 * m * r) / d + 1) / 2,
{
    let f = (2 * m * r) / d;
    let rr = (2 * m * r) % d;
    assert(2 * m * r == f * d + rr && rr < d) by (nonlinear_arith)
        requires
            d >= 1,
            f == (2 * m * r) / d,
            rr == (2 * m * r) % d,
    ;
    let q = (f + 1) / 2;
    let b = (f + 1) % 2;
    assert(f + 1 == 2 * q + b && b <= 1);
    let big = 2 * (m * (h * d + r)) + d;
    assert(big == (m * h + q) * (2 * d) + (b * d + rr)) by (nonlinear_arith)
        requires
            2 * m * r == f * d + rr,
            f + 1 == 2 * q + b,
            big == 2 * (m * (h * d + r)) + d,
    ;
    assert(b * d + rr < 2 * d) by (nonlinear_arith)
        requires
            b <= 1,
            rr < d,
    ;
    assert(big / (2 * d) == m * h + q) by (nonlinear_arith)
        requires
            big == (m * h + q) * (2 * d) + (b * d + rr),
            b * d + rr < 2 * d,
            d >= 1,
    ;
}

/// The range test on `m * (h + r / d)` against `m * lim`.
proof fn lemma_range(m: nat, h: nat, r: nat, d: nat, lim: nat)
    requires
        d >= 1,
        r < d,
        m >= 1,
    ensures
        (m * (h * d + r) > m * lim * d) <==> (h > lim || (h == lim && r > 0)),
{
    if h > lim {
        assert(h * d >= (lim + 1) * d) by (nonlinear_arith)
            requires
                h >= lim + 1,
                d >= 1,
        ;
        assert(m * (h * d + r) > m * lim * d) by (nonlinear_arith)
            requires
                h * d >= (lim + 1) * d,
                m >= 1,
                d >= 1,
        ;
    } else if h == lim {
        assert((m * (h * d + r) > m * lim * d) <==> r > 0) by (nonlinear_arith)
            requires
                h == lim,
                m >= 1,
        ;
    } else {
        assert(h * d + r < lim * d) by (nonlinear_arith)
            requires
                h + 1 <= lim,
                r < d,
        ;
        assert(m * (h * d + r) <= m * lim * d) by (nonlinear_arith)
            requires
                h * d + r < lim * d,
                m >= 1,
        ;
    }
}

/// A nonzero significand placed at or above `10^17` nanoseconds is out of
/// range.
proof fn lemma_big(ds: Seq<char>, exact: int, unit: DurationUnit, n: nat)
    requires
        n >= 1,
        digits_value(ds) >= pow10((n - 1) as nat),
        n + exact + unit_shift(unit) >= 18,
    ensures
        exact_nanos(ds, exact, unit).0 > MAX_DURATION_NANOS * exact_nanos(ds, exact, unit).1,
{
    let v = digits_value(ds);
    let mm = unit_factor(unit);
    let ee = exact + unit_shift(unit);
    let lo = (n - 1) as nat;
    reveal_with_fuel(pow10, 18);
    assert(pow10(17) == 100_000_000_000_000_000);
    if ee >= 0 {
        let pe = pow10(ee as nat);
        lemma_pow10_add(lo, ee as nat);
        lemma_pow10_mono(17, lo + ee as nat);
        assert(mm * v * pe >= pow10(lo) * pe) by (nonlinear_arith)
            requires
                mm >= 1,
                v >= pow10(lo),
                pe >= 0,
        ;
    } else {
        let a = (lo + ee) as nat;
        let b = (-ee) as nat;
        lemma_pow10_add(a, b);
        lemma_pow10_mono(17, a);
        lemma_pow10_pos(b);
        assert(lo == a + b);
        assert(pow10(a) * pow10(b) >= 100_000_000_000_000_000 * pow10(b)) by (nonlinear_arith)
            requires
                pow10(a) >= 100_000_000_000_000_000,
                pow10(b) >= 1,
        ;
        assert(mm * v >= v) by (nonlinear_arith)
            requires
                mm >= 1,
                v >= 0,
        ;
    }
}

/// A significand placed below `10^-3` nanoseconds rounds to zero.
proof fn lemma_small(ds: Seq<char>, exact: int, unit: DurationUnit, n: nat)
    requires
        digits_value(ds) < pow10(n),
        n + exact + unit_shift(unit) <= -3,
    ensures
        exact + unit_shift(unit) < 0,
        2 * exact_nanos(ds, exact, unit).0 < exact_nanos(ds, exact, unit).1,
{
    let v = digits_value(ds);
    let mm = unit_factor(unit);
    let ee = exact + unit_shift(unit);
    let b = (-ee) as nat;
    let extra = (b - n - 3) as nat;
    lemma_pow10_add(n, 3);
    lemma_pow10_add(n + 3, extra);
    lemma_pow10_pos(extra);
    reveal_with_fuel(pow10, 4);
    assert(pow10(3) == 1000);
    assert(n + 3 + extra == b);
    let pn = pow10(n);
    assert(2 * (mm * v) < 1000 * pn * pow10(extra)) by (nonlinear_arith)
        requires
            mm <= 6,
            v < pn,
            pow10(extra) >= 1,
    ;
}

/// Splits `digits_value(ds[z..]) * 10^(q - n)` (`n` the number of digits
/// from `z`) into an integer part `h` and the digits `p` of its fraction:
/// the value is `h + digits_value(p) / 10^len(p)`.
fn split_at_point(ds: &Vec<char>, z: usize, q: i128) -> (res: (u64, Vec<char>))
    requires
        all_digits(ds@),
        z <= ds.len(),
        -2 <= q <= 17,
    ensures
        all_digits(res.1@),
        q >= ds@.len() - z ==> res.1@.len() == 0 && res.0 == digits_value(ds@.skip(z as int))
            * pow10((q - (ds@.len() - z)) as nat),
        q < ds@.len() - z ==> res.1@.len() == ds@.len() - z - q && digits_value(ds@.skip(z as int))
            == res.0 * pow10(res.1@.len()) + digits_value(res.1@),
{
    let ghost s = ds@;
    let ghost big_e = s.skip(z as int);
    let n = ds.len() - z;
    assert(all_digits(big_e)) by {
        assert forall|i: int| 0 <= i < big_e.len() implies is_digit(#[trigger] big_e[i]) by {
            assert(big_e[i] == s[z + i]);
        }
    }
    if q >= 0 {
        let c: usize = if (q as usize) < n {
            q as usize
        } else {
            n
        };
        let ghost hd = s.subrange(z as int, z + c);
        proof {
            assert(hd =~= big_e.take(c as int));
            assert(all_digits(hd)) by {
                assert forall|i: int| 0 <= i < hd.len() implies is_digit(#[trigger] hd[i]) by {
                    assert(hd[i] == big_e[i]);
                }
            }
            lemma_value_lt(hd);
        }
        let mut h = small_value(ds, z, z + c);
        assert(pow10(0) == 1);
        assert(h == digits_value(hd) * pow10(0));
        let mut pad: usize = c;
        while pad < q as usize
            invariant
                c <= pad <= q <= 17,
                h == digits_value(hd) * pow10((pad - c) as nat),
                h < pow10(pad as nat),
            decreases q - pad,
        {
            proof {
                reveal_with_fuel(pow10, 19);
                lemma_pow10_mono((pad + 1) as nat, 17);
                assert(pow10((pad + 1) as nat) == 10 * pow10(pad as nat));
                assert(pow10((pad + 1 - c) as nat) == 10 * pow10((pad - c) as nat));
                assert(pow10(17) == 100_000_000_000_000_000);
                assert(digits_value(hd) * (10 * pow10((pad - c) as nat)) == 10 * (digits_value(hd)
                    * pow10((pad - c) as nat))) by (nonlinear_arith);
            }
            h = h * 10;
            pad = pad + 1;
        }
        let p = char_range(ds, z + c, ds.len());
        proof {
            let tl = big_e.skip(c as int);
            assert(p@ =~= tl);
            assert(big_e =~= hd + tl);
            lemma_value_append(hd, tl);
            assert(all_digits(p@)) by {
                assert forall|i: int| 0 <= i < p@.len() implies is_digit(#[trigger] p@[i]) by {
                    assert(p@[i] == big_e[c + i]);
                }
            }
            if c == n {
                assert(tl =~= Seq::<char>::empty());
                assert(hd =~= big_e);
            } else {
                assert(pad == c);
            }
        }
        (h, p)
    } else {
        let mut p: Vec<char> = Vec::new();
        let nz: usize = (-q) as usize;
        let mut i: usize = 0;
        while i < nz
            invariant
                i <= nz <= 2,
                p@.len() == i,
                all_zeros(p@),
            decreases nz - i,
        {
            p.push('0');
            i = i + 1;
        }
        let ghost zs = p@;
        let mut j = z;
        while j < ds.len()
            invariant
                z <= j <= ds.len(),
                s == ds@,
                p@ == zs + s.subrange(z as int, j as int),
            decreases ds.len() - j,
        {
            p.push(ds[j]);
            j = j + 1;
        }
        proof {
            assert(s.subrange(z as int, ds.len() as int) =~= big_e);
            lemma_value_append(zs, big_e);
            lemma_value_zeros(zs);
            assert(all_digits(p@)) by {
                assert forall|i: int| 0 <= i < p@.len() implies is_digit(#[trigger] p@[i]) by {
                    if i >= nz {
                        assert(p@[i] == big_e[i - nz]);
                    } else {
                        assert(p@[i] == zs[i]);
                    }
                }
            }
            assert(0 * pow10(big_e.len()) == 0) by (nonlinear_arith);
            assert(0 * pow10(p@.len()) == 0) by (nonlinear_arith);
        }
        (0, p)
    }
}

/// The exact nanoseconds of a number in terms of its split at the point.
proof fn lemma_split_nanos(s: Seq<char>, exact: int, unit: DurationUnit, v: nat, n: nat, h: nat, p: Seq<char>)
    requires
        v == digits_value(s),
        n + exact + unit_shift(unit) >= -2,
        n + exact + unit_shift(unit) >= n ==> p.len() == 0 && h == v * pow10(
            (exact + unit_shift(unit)) as nat,
        ),
        n + exact + unit_shift(unit) < n ==> p.len() == n - (n + exact + unit_shift(unit)) && v == h
            * pow10(p.len()) + digits_value(p),
    ensures
        exact_nanos(s, exact, unit).0 == unit_factor(unit) * (h * pow10(p.len()) + digits_value(p)),
        exact_nanos(s, exact, unit).1 == pow10(p.len()),
{
    let ee = exact + unit_shift(unit);
    let mm = unit_factor(unit);
    if ee >= 0 {
        assert(pow10(0) == 1);
        assert(digits_value(p) == 0);
        assert(mm * (h * 1 + 0) == mm * v * pow10(ee as nat)) by (nonlinear_arith)
            requires
                h == v * pow10(ee as nat),
        ;
    }
}

/// The duration of a parsed number (see `decimal_duration`), whose power
/// of ten `e` stands for the exact `exact`.
fn decimal_to_duration(neg: bool, ds: &Vec<char>, e: i128, unit: DurationUnit, Ghost(exact): Ghost<int>)
    -> (r: Option<Duration>)
    requires
        all_digits(ds@),
        exp_close(e as int, exact, ds@.len()),
        -(EXPONENT_CAP as int) - ds@.len() <= e <= EXPONENT_CAP,
    ensures
        r == decimal_duration(neg, ds@, exact, unit),
{
    let ghost s = ds@;
    let z = leading_zeros(ds);
    let n = ds.len() - z;
    proof {
        lemma_strip_zeros(s, z as int);
    }
    let ghost v = digits_value(s);
    let ghost big_e = s.skip(z as int);
    let shift: i128 = match unit {
        DurationUnit::Millis => 6,
        DurationUnit::Seconds => 9,
        DurationUnit::Minutes => 10,
    };
    let m: u64 = match unit {
        DurationUnit::Minutes => 6,
        _ => 1,
    };
    let ghost ee = exact + unit_shift(unit);
    let ghost mm = unit_factor(unit);
    assert(shift == unit_shift(unit) && m == mm);
    if n == 0 {
        proof {
            assert(big_e =~= Seq::<char>::empty());
            assert(v == 0);
            assert(mm * v == 0) by (nonlinear_arith)
                requires
                    v == 0,
            ;
            if ee >= 0 {
                assert(0 * pow10(ee as nat) == 0) by (nonlinear_arith);
            }
        }
        return Some(Duration::from_nanos(0));
    }
    proof {
        assert(big_e[0] == s[z as int]);
        lemma_value_lead(big_e);
        lemma_pow10_pos((n - 1) as nat);
        assert(mm * v >= 1) by (nonlinear_arith)
            requires
                mm >= 1,
                v >= 1,
        ;
        if ee >= 0 {
            lemma_pow10_pos(ee as nat);
            assert(mm * v * pow10(ee as nat) >= 1) by (nonlinear_arith)
                requires
                    mm * v >= 1,
                    pow10(ee as nat) >= 1,
            ;
        }
    }
    if neg {
        return None;
    }
    let q: i128 = n as i128 + e + shift;
    if q > 17 {
        proof {
            lemma_big(s, exact, unit, n as nat);
        }
        return None;
    }
    if q < -2 {
        proof {
            lemma_small(s, exact, unit, n as nat);
            let num = exact_nanos(s, exact, unit).0;
            let den = exact_nanos(s, exact, unit).1;
            assert(num <= MAX_DURATION_NANOS * den);
            assert((2 * num + den) / (2 * den) == 0) by (nonlinear_arith)
                requires
                    2 * num < den,
            ;
        }
        return Some(Duration::from_nanos(0));
    }
    assert(exact == e);
    let (h, p) = split_at_point(ds, z, q);
    let ghost pd = pow10(p@.len());
    let ghost pr = digits_value(p@);
    proof {
        lemma_split_nanos(s, exact, unit, v, n as nat, h as nat, p@);
        lemma_value_lt(p@);
        lemma_pow10_pos(p@.len());
    }
    let f = scaled_floor(&p, 2 * m);
    let lim: u64 = MAX_DURATION_NANOS / m;
    let zero_frac = only_zeros(&p);
    proof {
        assert(m * lim == MAX_DURATION_NANOS);
        lemma_range(mm, h as nat, pr, pd, lim as nat);
        lemma_round(mm, h as nat, pr, pd);
        if zero_frac {
            lemma_value_zeros(p@);
        } else {
            lemma_value_nonzero(p@);
        }
    }
    if h > lim || (h == lim && !zero_frac) {
        return None;
    }
    assert(m * h <= m * lim) by (nonlinear_arith)
        requires
            h <= lim,
    ;
    Some(Duration::from_nanos(m * h + (f + 1) / 2))
}

/// Parses a human-readable or protobuf duration string ("10s", "120s",
/// "500ms", "1m", "15.5s", "100"). Returns `None` for negative, malformed,
/// non-finite or out-of-range (over one year) inputs.
pub fn parse_duration_string(s: &str) -> (r: Option<Duration>)
    ensures
        r == spec_parse_duration(s@),
{
    let v = chars_of(s);
    let (a, b) = trim_bounds(&v);
    let t = char_range(&v, a, b);
    let n = t.len();
    proof {
        assert(t@ == trim(s@));
    }
    let (body, unit) = if n >= 2 && t[n - 2] == 'm' && t[n - 1] == 's' {
        assert(t@.subrange(0, n - 2) =~= t@.take(n - 2));
        (trimmed_range(&t, 0, n - 2), DurationUnit::Millis)
    } else if n >= 1 && t[n - 1] == 's' {
        assert(t@.subrange(0, n - 1) =~= t@.take(n - 1));
        (trimmed_range(&t, 0, n - 1), DurationUnit::Seconds)
    } else if n >= 1 && t[n - 1] == 'm' {
        assert(t@.subrange(0, n - 1) =~= t@.take(n - 1));
        (trimmed_range(&t, 0, n - 1), DurationUnit::Minutes)
    } else {
        (t, DurationUnit::Seconds)
    };
    assert(split_unit(trim(s@)) == (body@, unit));
    match parse_decimal_chars(&body) {
        None => None,
        Some((neg, ds, e)) => {
            let ghost exact = parse_decimal(body@)->Some_0.2;
            decimal_to_duration(neg, &ds, e, unit, Ghost(exact))
        },
    }
}

/// A number without a unit is a number of seconds: a text whose trimmed form
/// does not end in a unit letter parses as that trimmed form with `s`
/// appended does.
pub proof fn law_bare_number_is_seconds(s: Seq<char>)
    requires
        trim(s).len() > 0,
        trim(s).last() != 'm',
        trim(s).last() != 's',
    ensures
        spec_parse_duration(s) == spec_parse_duration(trim(s) + seq!['s']),
{
    let t = trim(s);
    lemma_trim_idempotent(s);
    lemma_trim_shape(s);
    let u = t + seq!['s'];
    assert(!is_ws('s'));
    assert(u[0] == t[0]);
    assert(u.last() == 's');
    lemma_trim_fixed(u);
    assert(u.take(u.len() - 1) =~= t);
    assert(u[u.len() - 2] == t.last());
    assert(split_unit(u) == (t, DurationUnit::Seconds));
    assert(split_unit(t) == (t, DurationUnit::Seconds));
}

} // verus!
