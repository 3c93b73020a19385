//! Decimal amounts as text: how an amount is read from digits and how a raw
//! value is written in digits.

use crate::fixed::{lemma_pow10_adds, lemma_pow10_values, pow10, pow10_u64, tick};
use crate::text::{
    all_digits, char_digit, char_is_digit, digit_of, digits_value, is_digit, leading_digits,
    lemma_digits_value_bound, lemma_digits_value_step, lemma_leading_digits_is, nat_digits,
    padded_digits, push_nat_digits, push_padded_digits,
};
use vstd::prelude::*;

verus! {

/// The largest amount, in whole units.
pub const AMOUNT_MAX: u64 = 9_223_372_036;

/// The text `s` without its underscores.
pub open spec fn without_underscores(s: Seq<char>) -> Seq<char>
    decreases s.len(),
{
    if s.len() == 0 {
        s
    } else if s.last() == '_' {
        without_underscores(s.drop_last())
    } else {
        without_underscores(s.drop_last()).push(s.last())
    }
}

/// The characters `v[from..to]` without the underscores.
pub fn strip_underscores(v: &Vec<char>, from: usize, to: usize) -> (r: Vec<char>)
    requires
        from <= to <= v.len(),
    ensures
        r@ == without_underscores(v@.subrange(from as int, to as int)),
{
    let mut out: Vec<char> = Vec::new();
    let mut i = from;
    while i < to
        invariant
            from <= i <= to <= v.len(),
            out@ == without_underscores(v@.subrange(from as int, i as int)),
        decreases to - i,
    {
        proof {
            let next = v@.subrange(from as int, i + 1);
            assert(next.drop_last() == v@.subrange(from as int, i as int));
            assert(next.last() == v@[i as int]);
        }
        if v[i] != '_' {
            out.push(v[i]);
        }
        i += 1;
    }
    out
}

/// A decimal number as it is written: a sign, the digits before the point and
/// the digits after it.
pub struct DecimalParts {
    pub negative: bool,
    pub int_digits: Seq<char>,
    pub frac_digits: Seq<char>,
}

/// The decimal number that `s` spells, if it spells one: an optional sign `+`
/// or `-`, digits, and optionally a point and more digits, with a digit on at
/// least one side of the point.
pub open spec fn parse_decimal(s: Seq<char>) -> Option<DecimalParts> {
    let signed = s.len() > 0 && (s[0] == '-' || s[0] == '+');
    let negative = s.len() > 0 && s[0] == '-';
    let body = if signed {
        s.skip(1)
    } else {
        s
    };
    let n = leading_digits(body);
    let int_digits = body.take(n);
    let rest = body.skip(n);
    if rest.len() == 0 {
        if n > 0 {
            Some(DecimalParts { negative, int_digits, frac_digits: Seq::<char>::empty() })
        } else {
            None
        }
    } else if rest[0] == '.' && all_digits(rest.skip(1)) && (n > 0 || rest.len() > 1) {
        Some(DecimalParts { negative, int_digits, frac_digits: rest.skip(1) })
    } else {
        None
    }
}

/// Where the parts of a decimal number stand in a text.
#[derive(Clone, Copy, Debug)]
pub struct DecimalSpan {
    pub negative: bool,
    /// The digits before the point are at `int_from..int_to`.
    pub int_from: usize,
    pub int_to: usize,
    /// The digits after the point are at `frac_from..frac_to`.
    pub frac_from: usize,
    pub frac_to: usize,
}

impl DecimalSpan {
    /// The parts that the span marks in `s`.
    pub open spec fn parts(&self, s: Seq<char>) -> DecimalParts {
        DecimalParts {
            negative: self.negative,
            int_digits: s.subrange(self.int_from as int, self.int_to as int),
            frac_digits: s.subrange(self.frac_from as int, self.frac_to as int),
        }
    }

    /// Whether the span lies in a text of length `len`.
    pub open spec fn fits(&self, len: nat) -> bool {
        self.int_from <= self.int_to <= self.frac_from <= self.frac_to <= len
    }
}

/// Where the decimal number that `v` spells has its parts, if it spells one.
pub fn scan_decimal(v: &Vec<char>) -> (r: Option<DecimalSpan>)
    ensures
        match r {
            Some(span) => span.fits(v@.len()) && parse_decimal(v@) == Some(span.parts(v@))
                && all_digits(span.parts(v@).int_digits) && all_digits(span.parts(v@).frac_digits),
            None => parse_decimal(v@) is None,
        },
{
    let len = v.len();
    let signed = len > 0 && (v[0] == '-' || v[0] == '+');
    let negative = len > 0 && v[0] == '-';
    let start: usize = if signed {
        1
    } else {
        0
    };
    let ghost body = if signed {
        v@.skip(1)
    } else {
        v@
    };
    assert(body == v@.skip(start as int));
    let mut i = start;
    while i < len && char_is_digit(v[i])
        invariant
            start <= i <= len == v.len(),
            body == v@.skip(start as int),
            forall|j: int| 0 <= j < i - start ==> is_digit(#[trigger] body[j]),
        decreases len - i,
    {
        i += 1;
    }
    let ghost n = i - start;
    proof {
        if i < len {
            assert(body[n] == v@[i as int]);
        }
        lemma_leading_digits_is(body, n);
        assert(body.take(n) == v@.subrange(start as int, i as int));
        assert(body.skip(n) == v@.skip(i as int));
    }
    let ghost rest = v@.skip(i as int);
    if i == len {
        if i > start {
            assert(v@.subrange(len as int, len as int) == Seq::<char>::empty());
            return Some(
                DecimalSpan { negative, int_from: start, int_to: i, frac_from: len, frac_to: len },
            );
        } else {
            return None;
        }
    }
    if v[i] != '.' {
        assert(rest[0] == v@[i as int]);
        return None;
    }
    assert(rest[0] == v@[i as int]);
    let mut k = i + 1;
    while k < len && char_is_digit(v[k])
        invariant
            i + 1 <= k <= len == v.len(),
            rest == v@.skip(i as int),
            forall|j: int| 0 <= j < k - (i + 1) ==> is_digit(#[trigger] rest.skip(1)[j]),
        decreases len - k,
    {
        k += 1;
    }
    if k < len {
        proof {
            assert(rest.skip(1)[k - (i + 1)] == v@[k as int]);
            assert(!is_digit(rest.skip(1)[k - (i + 1)]));
        }
        return None;
    }
    if i == start && len == i + 1 {
        return None;
    }
    proof {
        assert(rest.skip(1) == v@.subrange(i + 1, len as int));
    }
    Some(DecimalSpan { negative, int_from: start, int_to: i, frac_from: i + 1, frac_to: len })
}

/// Whether every character of `s` is the digit zero.
pub open spec fn all_zeros(s: Seq<char>) -> bool {
    forall|i: int| 0 <= i < s.len() ==> #[trigger] s[i] == '0'
}

/// Whether the number is within the amounts that can be kept: its magnitude is
/// at most `AMOUNT_MAX`.
pub open spec fn amount_in_range(parts: DecimalParts) -> bool {
    ||| digits_value(parts.int_digits) < AMOUNT_MAX
    ||| digits_value(parts.int_digits) == AMOUNT_MAX && all_zeros(parts.frac_digits)
}

/// The digits after the point as a count of steps of `10^-p`, rounded to the
/// nearest, a half rounded up.
pub open spec fn frac_ticks(frac: Seq<char>, p: nat) -> nat {
    if frac.len() <= p {
        digits_value(frac) * pow10((p - frac.len()) as nat)
    } else if digit_of(frac[p as int]) >= 5 {
        digits_value(frac.take(p as int)) + 1
    } else {
        digits_value(frac.take(p as int))
    }
}

/// The magnitude of the number as a count of steps of `10^-p`, rounded to the
/// nearest, a half rounded away from zero.
pub open spec fn amount_ticks(parts: DecimalParts, p: nat) -> nat {
    digits_value(parts.int_digits) * pow10(p) + frac_ticks(parts.frac_digits, p)
}

/// The raw value of the number, rounded to `p` decimal digits.
pub open spec fn amount_raw(parts: DecimalParts, p: nat) -> int
    recommends
        p <= 9,
{
    let magnitude = (amount_ticks(parts, p) * tick(p)) as int;
    if parts.negative {
        -magnitude
    } else {
        magnitude
    }
}

/// Zeros spell zero.
pub proof fn lemma_zeros_value(s: Seq<char>)
    requires
        all_zeros(s),
    ensures
        digits_value(s) == 0,
    decreases s.len(),
{
    if s.len() > 0 {
        let t = s.drop_last();
        assert forall|i: int| 0 <= i < t.len() implies #[trigger] t[i] == '0' by {
            assert(t[i] == s[i]);
        }
        lemma_zeros_value(t);
        assert(s.last() == s[s.len() - 1]);
    }
}

/// The digits after the point round to at most one whole unit, and to nothing
/// where they are zeros.
pub proof fn lemma_frac_ticks_bound(frac: Seq<char>, p: nat)
    requires
        all_digits(frac),
    ensures
        frac_ticks(frac, p) <= pow10(p),
        all_zeros(frac) ==> frac_ticks(frac, p) == 0,
{
    if frac.len() <= p {
        lemma_digits_value_bound(frac);
        lemma_pow10_adds(frac.len(), (p - frac.len()) as nat);
        let a = digits_value(frac);
        let b = pow10(frac.len());
        let c = pow10((p - frac.len()) as nat);
        assert(a * c <= b * c) by (nonlinear_arith)
            requires
                a < b,
                c >= 0,
        ;
        if all_zeros(frac) {
            lemma_zeros_value(frac);
            assert(a * c == 0) by (nonlinear_arith)
                requires
                    a == 0,
            ;
        }
    } else {
        let head = frac.take(p as int);
        assert forall|i: int| 0 <= i < head.len() implies is_digit(#[trigger] head[i]) by {
            assert(head[i] == frac[i]);
        }
        lemma_digits_value_bound(head);
        if all_zeros(frac) {
            assert forall|i: int| 0 <= i < head.len() implies #[trigger] head[i] == '0' by {
                assert(head[i] == frac[i]);
            }
            lemma_zeros_value(head);
            assert(frac[p as int] == '0');
            assert(digit_of('0') == 0);
        }
    }
}

/// A number within range has a raw value within the raw range.
pub proof fn lemma_amount_raw_bound(parts: DecimalParts, p: nat)
    requires
        p <= 9,
        all_digits(parts.frac_digits),
        amount_in_range(parts),
    ensures
        amount_ticks(parts, p) <= AMOUNT_MAX * pow10(p),
        -9_223_372_036_000_000_000 <= amount_raw(parts, p) <= 9_223_372_036_000_000_000,
{
    lemma_frac_ticks_bound(parts.frac_digits, p);
    lemma_pow10_adds(p, (9 - p) as nat);
    lemma_pow10_values();
    let i = digits_value(parts.int_digits);
    let f = frac_ticks(parts.frac_digits, p);
    let pp = pow10(p);
    let t = tick(p);
    assert(i * pp + f <= AMOUNT_MAX * pp) by (nonlinear_arith)
        requires
            i < AMOUNT_MAX && f <= pp || i == AMOUNT_MAX && f == 0,
            pp >= 0,
    ;
    assert((i * pp + f) * t <= 9_223_372_036 * 1_000_000_000) by (nonlinear_arith)
        requires
            i * pp + f <= 9_223_372_036 * pp,
            pp * t == 1_000_000_000,
            t >= 0,
    ;
}

/// The number that the digits `v[from..to]` spell, if it is at most
/// `AMOUNT_MAX`.
fn bounded_value(v: &Vec<char>, from: usize, to: usize) -> (r: Option<u64>)
    requires
        from <= to <= v.len(),
        all_digits(v@.subrange(from as int, to as int)),
    ensures
        match r {
            Some(n) => n == digits_value(v@.subrange(from as int, to as int)) && n <= AMOUNT_MAX,
            None => digits_value(v@.subrange(from as int, to as int)) > AMOUNT_MAX,
        },
{
    let ghost digits = v@.subrange(from as int, to as int);
    let mut acc: u64 = 0;
    let mut over = false;
    let mut i = from;
    proof {
        assert(digits.take(0) == Seq::<char>::empty());
    }
    while i < to
        invariant
            from <= i <= to <= v.len(),
            digits == v@.subrange(from as int, to as int),
            all_digits(digits),
            !over ==> acc == digits_value(digits.take(i - from)) && acc <= AMOUNT_MAX,
            over ==> digits_value(digits.take(i - from)) > AMOUNT_MAX,
        decreases to - i,
    {
        proof {
            assert(digits[i - from] == v@[i as int]);
            assert(is_digit(digits[i - from]));
            lemma_digits_value_step(digits, i - from);
        }
        let d = char_digit(v[i]) as u64;
        if !over {
            let next = acc * 10 + d;
            if next > AMOUNT_MAX {
                over = true;
            } else {
                acc = next;
            }
        }
        i += 1;
    }
    proof {
        assert(digits.take(to - from) == digits);
    }
    if over {
        None
    } else {
        Some(acc)
    }
}

/// Whether `v[from..to]` holds zeros only.
fn is_all_zeros(v: &Vec<char>, from: usize, to: usize) -> (r: bool)
    requires
        from <= to <= v.len(),
    ensures
        r == all_zeros(v@.subrange(from as int, to as int)),
{
    let ghost digits = v@.subrange(from as int, to as int);
    let mut i = from;
    while i < to
        invariant
            from <= i <= to <= v.len(),
            digits == v@.subrange(from as int, to as int),
            forall|j: int| 0 <= j < i - from ==> #[trigger] digits[j] == '0',
        decreases to - i,
    {
        if v[i] != '0' {
            assert(digits[i - from] == v@[i as int]);
            return false;
        }
        assert(digits[i - from] == v@[i as int]);
        i += 1;
    }
    true
}

/// The digits `v[from..to]` after the point as a count of steps of
/// `10^-precision`, rounded to the nearest, a half rounded up.
fn rounded_fraction(v: &Vec<char>, from: usize, to: usize, precision: u8) -> (r: u64)
    requires
        from <= to <= v.len(),
        precision <= 9,
        all_digits(v@.subrange(from as int, to as int)),
    ensures
        r == frac_ticks(v@.subrange(from as int, to as int), precision as nat),
        r <= pow10(precision as nat),
{
    let ghost frac = v@.subrange(from as int, to as int);
    proof {
        lemma_frac_ticks_bound(frac, precision as nat);
        lemma_pow10_values();
        assert(frac.take(0) == Seq::<char>::empty());
    }
    let len = to - from;
    let kept: usize = if len <= precision as usize {
        len
    } else {
        precision as usize
    };
    let mut acc: u64 = 0;
    let mut i: usize = 0;
    while i < kept
        invariant
            i <= kept <= 9,
            kept <= len == to - from,
            from <= to <= v.len(),
            frac == v@.subrange(from as int, to as int),
            all_digits(frac),
            acc == digits_value(frac.take(i as int)),
            acc < pow10(i as nat),
            pow10(0) == 1,
            forall|e: nat| e < 9 ==> #[trigger] pow10(e + 1) == 10 * pow10(e),
            pow10(9) == 1_000_000_000,
        decreases kept - i,
    {
        proof {
            assert(frac[i as int] == v@[from + i]);
            assert(is_digit(frac[i as int]));
            lemma_digits_value_step(frac, i as int);
            assert(pow10((i + 1) as nat) == 10 * pow10(i as nat));
            crate::fixed::lemma_pow10_le_scale((i + 1) as nat);
        }
        acc = acc * 10 + char_digit(v[from + i]) as u64;
        i += 1;
    }
    if len <= precision as usize {
        proof {
            assert(frac.take(len as int) == frac);
            lemma_pow10_adds(len as nat, (precision - len) as nat);
            let c = pow10((precision - len) as nat);
            let b = pow10(len as nat);
            assert(acc * c <= b * c) by (nonlinear_arith)
                requires
                    acc < b,
                    c >= 0,
            ;
        }
        let scale = pow10_u64(precision - len as u8);
        acc * scale
    } else {
        assert(frac[precision as int] == v@[from + precision]);
        if char_digit(v[from + precision as usize]) >= 5 {
            acc + 1
        } else {
            acc
        }
    }
}

/// The whole units of the decimal number that `span` marks in `v`, if the
/// number is within range.
pub fn decimal_whole(v: &Vec<char>, span: DecimalSpan) -> (r: Option<u64>)
    requires
        span.fits(v@.len()),
        all_digits(span.parts(v@).int_digits),
    ensures
        match r {
            Some(whole) => amount_in_range(span.parts(v@)) && whole == digits_value(
                span.parts(v@).int_digits,
            ),
            None => !amount_in_range(span.parts(v@)),
        },
{
    match bounded_value(v, span.int_from, span.int_to) {
        Some(whole) => {
            if whole == AMOUNT_MAX && !is_all_zeros(v, span.frac_from, span.frac_to) {
                None
            } else {
                Some(whole)
            }
        },
        None => None,
    }
}

/// The raw value of the decimal number that `span` marks in `v`, which is
/// within range and has `whole` whole units, rounded to `precision` decimal
/// digits.
pub fn decimal_raw(v: &Vec<char>, span: DecimalSpan, whole: u64, precision: u8) -> (r: i64)
    requires
        span.fits(v@.len()),
        all_digits(span.parts(v@).frac_digits),
        amount_in_range(span.parts(v@)),
        whole == digits_value(span.parts(v@).int_digits),
        precision <= 9,
    ensures
        r == amount_raw(span.parts(v@), precision as nat),
{
    let ghost parts = span.parts(v@);
    let frac = rounded_fraction(v, span.frac_from, span.frac_to, precision);
    let unit = pow10_u64(precision);
    let step = pow10_u64(9 - precision);
    proof {
        lemma_amount_raw_bound(parts, precision as nat);
        assert(whole * unit <= AMOUNT_MAX * unit) by (nonlinear_arith)
            requires
                whole <= AMOUNT_MAX,
                unit >= 0,
        ;
        assert(AMOUNT_MAX * unit <= AMOUNT_MAX * 1_000_000_000) by (nonlinear_arith)
            requires
                unit <= 1_000_000_000,
        ;
    }
    let ticks = whole * unit + frac;
    proof {
        assert(ticks == amount_ticks(parts, precision as nat));
        assert(ticks * step <= 9_223_372_036_000_000_000);
    }
    let magnitude = ticks * step;
    if span.negative {
        -(magnitude as i64)
    } else {
        magnitude as i64
    }
}

/// The magnitude of `raw`.
pub open spec fn magnitude(raw: int) -> nat {
    if raw < 0 {
        (-raw) as nat
    } else {
        raw as nat
    }
}

/// The number of whole `unit`s nearest to `n`; of two that are equally near,
/// the even one.
pub open spec fn round_half_even(n: nat, unit: nat) -> nat
    recommends
        unit > 0,
{
    let q = n / unit;
    let r = n % unit;
    if 2 * r > unit || (2 * r == unit && q % 2 == 1) {
        q + 1
    } else {
        q
    }
}

/// The magnitude of `raw` as a count of steps of `10^-p`, rounded to the
/// nearest, a half rounded to the even count.
pub open spec fn display_ticks(raw: int, p: nat) -> nat
    recommends
        p <= 9,
{
    round_half_even(magnitude(raw), tick(p))
}

/// The amount `raw` written with exactly `p` decimal digits: a minus sign
/// where `raw` is negative, the digits of the whole part, and for `p > 0` a
/// point and `p` digits.
pub open spec fn amount_text(raw: int, p: nat) -> Seq<char>
    recommends
        p <= 9,
{
    let ticks = display_ticks(raw, p);
    let sign = if raw < 0 {
        seq!['-']
    } else {
        Seq::<char>::empty()
    };
    let whole = nat_digits(ticks / pow10(p));
    if p == 0 {
        sign + whole
    } else {
        sign + whole + seq!['.'] + padded_digits(ticks % pow10(p), p)
    }
}

/// The magnitude of `raw`.
pub fn magnitude_u64(raw: i64) -> (r: u64)
    ensures
        r == magnitude(raw as int),
{
    if raw >= 0 {
        raw as u64
    } else {
        (-(raw + 1)) as u64 + 1
    }
}

/// Appends the amount `raw`, written with exactly `precision` decimal digits,
/// to `out`.
pub fn push_amount(out: &mut Vec<char>, raw: i64, precision: u8)
    requires
        precision <= 9,
    ensures
        final(out)@ == old(out)@ + amount_text(raw as int, precision as nat),
{
    let size = magnitude_u64(raw);
    let step = pow10_u64(9 - precision);
    let unit = pow10_u64(precision);
    let q = size / step;
    let r = size % step;
    let ticks = if 2 * r > step || (2 * r == step && q % 2 == 1) {
        q + 1
    } else {
        q
    };
    assert(ticks == display_ticks(raw as int, precision as nat));
    let ghost before = out@;
    if raw < 0 {
        out.push('-');
    }
    let ghost signed = out@;
    push_nat_digits(out, ticks / unit);
    if precision > 0 {
        out.push('.');
        push_padded_digits(out, ticks % unit, precision);
    }
    proof {
        let sign = if raw < 0 {
            seq!['-']
        } else {
            Seq::<char>::empty()
        };
        assert(signed == before + sign);
        let whole = nat_digits((ticks / unit) as nat);
        if precision == 0 {
            assert(out@ == before + (sign + whole));
        } else {
            let frac = padded_digits((ticks % unit) as nat, precision as nat);
            assert(out@ == before + (sign + whole + seq!['.'] + frac));
        }
    }
}

} // verus!
