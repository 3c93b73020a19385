//! Writing an amount of money as text and reading it back gives the amount,
//! whether or not its digits are grouped.

use crate::amount::{
    all_zeros, amount_in_range, amount_raw, amount_text, amount_ticks, display_ticks, frac_ticks,
    magnitude, parse_decimal, without_underscores, DecimalParts,
};
use crate::currency::{find_currency, is_code, Currency};
use crate::grouping::{grouped_digits, leading_non_digits, underscore_separated};
use crate::fixed::{lemma_pow10_adds, lemma_pow10_le_scale, lemma_pow10_values, pow10, tick};
use crate::money::{
    lemma_made_money_is_wf, money_of_amount, money_of_parts, money_of_text, Money, MoneyError,
};
use crate::text::{
    all_digits, digit_char, digits_value, is_digit, is_whitespace, lemma_leading_digits_is, lemma_nat_digits,
    lemma_padded_digits, lemma_word_end_is, lemma_ws_end_is, nat_digits, padded_digits, two_words,
};
use vstd::arithmetic::div_mod::{lemma_fundamental_div_mod, lemma_mod_multiples_basic};
use vstd::prelude::*;

verus! {

/// Whether `c` can stand in an amount that was written: a digit, the point or
/// the minus sign.
pub open spec fn is_amount_char(c: char) -> bool {
    is_digit(c) || c == '.' || c == '-'
}

/// A text without underscores is itself without its underscores.
pub proof fn lemma_without_underscores_same(s: Seq<char>)
    requires
        forall|i: int| 0 <= i < s.len() ==> #[trigger] s[i] != '_',
    ensures
        without_underscores(s) == s,
    decreases s.len(),
{
    if s.len() > 0 {
        let t = s.drop_last();
        assert forall|i: int| 0 <= i < t.len() implies #[trigger] t[i] != '_' by {
            assert(t[i] == s[i]);
        }
        lemma_without_underscores_same(t);
        assert(s.last() == s[s.len() - 1]);
        assert(t.push(s.last()) == s);
    }
}

/// The padded digits of zero are zeros.
pub proof fn lemma_padded_zero(width: nat)
    ensures
        all_zeros(padded_digits(0, width)),
    decreases width,
{
    if width > 0 {
        lemma_padded_zero((width - 1) as nat);
        let s = padded_digits(0, width);
        let t = padded_digits(0, (width - 1) as nat);
        assert(s == t.push(digit_char(0)));
        assert(digit_char(0) == '0');
        assert forall|i: int| 0 <= i < s.len() implies #[trigger] s[i] == '0' by {
            if i < t.len() {
                assert(s[i] == t[i]);
            }
        }
    }
}

/// Two words with one space between them, and nothing around them, are read
/// as those two words.
pub proof fn lemma_two_words_joined(a: Seq<char>, b: Seq<char>)
    requires
        is_code(a),
        is_code(b),
    ensures
        two_words(a + seq![' '] + b) == Some((a, b)),
{
    let s = a + seq![' '] + b;
    let n = a.len() as int;
    let len = s.len() as int;
    assert(len == n + 1 + b.len());
    assert forall|j: int| 0 <= j < n implies !is_whitespace(#[trigger] s[j]) by {
        assert(s[j] == a[j]);
    }
    assert(s[n] == ' ');
    assert(is_whitespace(' '));
    assert forall|j: int| n + 1 <= j < len implies !is_whitespace(#[trigger] s[j]) by {
        assert(s[j] == b[j - n - 1]);
    }
    assert(!is_whitespace(s[0]));
    lemma_ws_end_is(s, 0, 0);
    lemma_word_end_is(s, 0, n);
    assert forall|j: int| n <= j < n + 1 implies is_whitespace(#[trigger] s[j]) by {}
    assert(!is_whitespace(s[n + 1]));
    lemma_ws_end_is(s, n, n + 1);
    lemma_word_end_is(s, n + 1, len);
    lemma_ws_end_is(s, len, len);
    assert(s.subrange(0, n) == a);
    assert(s.subrange(n + 1, len) == b);
}

/// The parts of the text of an amount: the sign of the raw value, the digits
/// of the whole steps, and the digits of the steps beyond them.
pub open spec fn written_parts(raw: int, p: nat) -> DecimalParts {
    let ticks = display_ticks(raw, p);
    DecimalParts {
        negative: raw < 0,
        int_digits: nat_digits(ticks / pow10(p)),
        frac_digits: padded_digits(ticks % pow10(p), p),
    }
}

/// The text of an amount is a word without underscores, and is read as the
/// parts that were written.
pub proof fn lemma_amount_text_is_read(raw: int, p: nat)
    requires
        p <= 9,
    ensures
        is_code(amount_text(raw, p)),
        forall|i: int|
            0 <= i < amount_text(raw, p).len() ==> is_amount_char(#[trigger] amount_text(raw, p)[i]),
        parse_decimal(amount_text(raw, p)) == Some(written_parts(raw, p)),
{
    let ticks = display_ticks(raw, p);
    let text = amount_text(raw, p);
    let whole = nat_digits(ticks / pow10(p));
    let frac = padded_digits(ticks % pow10(p), p);
    let sign = if raw < 0 {
        seq!['-']
    } else {
        Seq::<char>::empty()
    };
    let tail = if p == 0 {
        Seq::<char>::empty()
    } else {
        seq!['.'] + frac
    };
    lemma_nat_digits(ticks / pow10(p));
    lemma_padded_digits(ticks % pow10(p), p);
    assert(text == sign + whole + tail);
    let k = sign.len() as int;
    let n = whole.len() as int;
    assert forall|i: int| 0 <= i < text.len() implies is_amount_char(#[trigger] text[i])
        && !is_whitespace(text[i]) by {
        if i < k {
            assert(text[i] == '-');
        } else if i < k + n {
            assert(text[i] == whole[i - k]);
        } else if i == k + n {
            assert(text[i] == '.');
        } else {
            assert(text[i] == frac[i - k - n - 1]);
        }
    }
    let signed = text.len() > 0 && (text[0] == '-' || text[0] == '+');
    if raw < 0 {
        assert(text[0] == '-');
    } else {
        assert(text[0] == whole[0]);
        assert(is_digit(whole[0]));
    }
    assert(signed == (raw < 0));
    let body = if signed {
        text.skip(1)
    } else {
        text
    };
    assert(body == whole + tail);
    assert forall|i: int| 0 <= i < n implies is_digit(#[trigger] body[i]) by {
        assert(body[i] == whole[i]);
    }
    if p > 0 {
        assert(body[n] == '.');
    }
    lemma_leading_digits_is(body, n);
    assert(body.take(n) == whole);
    assert(body.skip(n) == tail);
    if p > 0 {
        assert(tail.skip(1) == frac);
    } else {
        assert(frac == Seq::<char>::empty());
    }
}

/// An amount that lies on a step of its precision is written in that many
/// steps exactly.
pub proof fn lemma_display_ticks_exact(raw: int, p: nat)
    requires
        p <= 9,
        raw % (tick(p) as int) == 0,
    ensures
        display_ticks(raw, p) * tick(p) == magnitude(raw),
{
    lemma_pow10_le_scale((9 - p) as nat);
    let t = tick(p) as int;
    let m = magnitude(raw) as int;
    if raw < 0 {
        let q = raw / t;
        lemma_fundamental_div_mod(raw, t);
        assert(m == (-q) * t) by (nonlinear_arith)
            requires
                raw == t * q + 0,
                m == -raw,
        ;
        lemma_mod_multiples_basic(-q, t);
    }
    lemma_fundamental_div_mod(m, t);
    assert((m / t) * t == m) by (nonlinear_arith)
        requires
            m == t * (m / t) + 0,
    ;
}

/// The parts that were written of an amount that lies on a step of its
/// precision and within range are within range, and their raw value is the
/// amount.
pub proof fn lemma_written_parts_are_the_amount(raw: int, p: nat)
    requires
        p <= 9,
        raw % (tick(p) as int) == 0,
        -9_223_372_036_000_000_000 <= raw <= 9_223_372_036_000_000_000,
    ensures
        amount_in_range(written_parts(raw, p)),
        amount_raw(written_parts(raw, p), p) == raw,
{
    let parts = written_parts(raw, p);
    let ticks = display_ticks(raw, p) as int;
    let u = pow10(p) as int;
    let t = tick(p) as int;
    let m = magnitude(raw) as int;
    lemma_display_ticks_exact(raw, p);
    lemma_pow10_le_scale(p);
    lemma_pow10_le_scale((9 - p) as nat);
    lemma_pow10_adds(p, (9 - p) as nat);
    lemma_pow10_values();
    assert(u * t == 1_000_000_000);
    lemma_nat_digits((ticks / u) as nat);
    lemma_padded_digits((ticks % u) as nat, p);
    assert(pow10(0) == 1);
    let whole = ticks / u;
    let part = ticks % u;
    assert(whole * u + part == ticks && 0 <= part < u) by (nonlinear_arith)
        requires
            whole == ticks / u,
            part == ticks % u,
            u > 0,
    ;
    assert(digits_value(parts.int_digits) == whole);
    assert(digits_value(parts.frac_digits) == part);
    assert(parts.frac_digits.len() == p);
    assert(part * 1 == part);
    assert(frac_ticks(parts.frac_digits, p) == part);
    assert(amount_ticks(parts, p) == ticks);
    // The range.
    assert(ticks <= 9_223_372_036 * u) by (nonlinear_arith)
        requires
            ticks * t == m,
            m <= 9_223_372_036 * (u * t),
            t > 0,
            u * t == 1_000_000_000,
    ;
    assert(whole <= 9_223_372_036) by (nonlinear_arith)
        requires
            whole * u + part == ticks,
            part >= 0,
            ticks <= 9_223_372_036 * u,
            u > 0,
    ;
    if whole == 9_223_372_036 {
        assert(part == 0) by (nonlinear_arith)
            requires
                whole * u + part == ticks,
                whole == 9_223_372_036,
                part >= 0,
                ticks <= 9_223_372_036 * u,
        ;
        lemma_padded_zero(p);
    }
}

/// The text of an amount of money is read back as that amount, wherever the
/// currency of the amount is the one that is known under its code.
pub proof fn lemma_text_round_trip(money: Money, currencies: Seq<Currency>)
    requires
        money.wf(),
        find_currency(currencies, money.currency.code@) == Some(money.currency),
    ensures
        money_of_text(money.text(), currencies) == Ok::<Money, MoneyError>(money),
{
    let p = money.currency.precision as nat;
    let raw = money.raw as int;
    let amount = amount_text(raw, p);
    lemma_amount_text_is_read(raw, p);
    lemma_written_parts_are_the_amount(raw, p);
    lemma_two_words_joined(amount, money.currency.code@);
    assert forall|i: int| 0 <= i < amount.len() implies #[trigger] amount[i] != '_' by {
        assert(is_amount_char(amount[i]));
    }
    lemma_without_underscores_same(amount);
    assert(money_of_parts(written_parts(raw, p), money.currency) == Ok::<Money, MoneyError>(money));
}

/// The money that is made of a decimal number in a valid currency is written
/// as a text that is read back as that money, wherever the currency is the one
/// that is known under its code.
pub proof fn lemma_new_round_trip(amount: Seq<char>, currency: Currency, currencies: Seq<Currency>)
    requires
        currency.wf(),
        money_of_amount(amount, currency) is Ok,
        find_currency(currencies, currency.code@) == Some(currency),
    ensures
        money_of_text(money_of_amount(amount, currency)->Ok_0.text(), currencies)
            == money_of_amount(amount, currency),
{
    let parts = parse_decimal(amount)->Some_0;
    lemma_made_money_is_wf(parts, currency);
    lemma_text_round_trip(money_of_amount(amount, currency)->Ok_0, currencies);
}

/// A text without its underscores is its first part without them, then its
/// second part without them.
pub proof fn lemma_without_underscores_concat(a: Seq<char>, b: Seq<char>)
    ensures
        without_underscores(a + b) == without_underscores(a) + without_underscores(b),
    decreases b.len(),
{
    if b.len() == 0 {
        assert(a + b == a);
    } else {
        let s = a + b;
        assert(s.drop_last() == a + b.drop_last());
        assert(s.last() == b.last());
        lemma_without_underscores_concat(a, b.drop_last());
    }
}

/// Grouped digits hold digits and underscores only, and without the
/// underscores they are the digits.
pub proof fn lemma_grouped_digits(d: Seq<char>)
    requires
        all_digits(d),
    ensures
        without_underscores(grouped_digits(d)) == d,
        forall|i: int|
            0 <= i < grouped_digits(d).len() ==> is_digit(#[trigger] grouped_digits(d)[i])
                || grouped_digits(d)[i] == '_',
        d.len() > 0 ==> grouped_digits(d).len() > 0,
    decreases d.len(),
{
    if d.len() > 0 {
        let rest = d.drop_first();
        assert forall|i: int| 0 <= i < rest.len() implies is_digit(#[trigger] rest[i]) by {
            assert(rest[i] == d[i + 1]);
        }
        lemma_grouped_digits(rest);
        assert(is_digit(d[0]));
        let head = if d.len() > 1 && (d.len() - 1) % 3 == 0 {
            seq![d[0], '_']
        } else {
            seq![d[0]]
        };
        let g = grouped_digits(d);
        assert(g == head + grouped_digits(rest));
        lemma_without_underscores_concat(head, grouped_digits(rest));
        let one = seq![d[0]];
        assert(one.drop_last() == Seq::<char>::empty());
        assert(without_underscores(one) == one) by {
            assert(without_underscores(one.drop_last()) == Seq::<char>::empty());
            assert(Seq::<char>::empty().push(d[0]) == one);
        }
        if head.len() == 2 {
            assert(head.drop_last() == one);
            assert(head.last() == '_');
        }
        assert(without_underscores(head) == one);
        assert(one + rest == d);
        assert forall|i: int| 0 <= i < g.len() implies is_digit(#[trigger] g[i]) || g[i] == '_' by {
            if i >= head.len() {
                assert(g[i] == grouped_digits(rest)[i - head.len()]);
            }
        }
    }
}

/// The text of an amount with its digits grouped: the sign, the digits of the
/// whole part grouped, and the point and what follows it as they were.
pub proof fn lemma_separated_amount_text(raw: int, p: nat)
    requires
        p <= 9,
    ensures
        is_code(underscore_separated(amount_text(raw, p))),
        without_underscores(underscore_separated(amount_text(raw, p))) == amount_text(raw, p),
{
    let ticks = display_ticks(raw, p);
    let text = amount_text(raw, p);
    let whole = nat_digits(ticks / pow10(p));
    let frac = padded_digits(ticks % pow10(p), p);
    let sign = if raw < 0 {
        seq!['-']
    } else {
        Seq::<char>::empty()
    };
    let tail = if p == 0 {
        Seq::<char>::empty()
    } else {
        seq!['.'] + frac
    };
    lemma_nat_digits(ticks / pow10(p));
    lemma_padded_digits(ticks % pow10(p), p);
    lemma_amount_text_is_read(raw, p);
    assert(text == sign + whole + tail);
    let k = sign.len() as int;
    let n = whole.len() as int;
    // Where the first run of digits stands.
    assert(text.skip(k) == whole + tail);
    if raw < 0 {
        assert(text[0] == '-');
        assert(text.drop_first() == text.skip(1));
        assert(text.skip(1)[0] == whole[0]);
        assert(is_digit(whole[0]));
        reveal_with_fuel(leading_non_digits, 2);
    } else {
        assert(text[0] == whole[0]);
        assert(is_digit(whole[0]));
    }
    assert(leading_non_digits(text) == k);
    let rest = text.skip(k);
    assert forall|i: int| 0 <= i < n implies is_digit(#[trigger] rest[i]) by {
        assert(rest[i] == whole[i]);
    }
    if p > 0 {
        assert(rest[n] == '.');
    }
    lemma_leading_digits_is(rest, n);
    assert(rest.take(n) == whole);
    assert(rest.skip(n) == tail);
    assert(text.take(k) == sign);
    let grouped = grouped_digits(whole);
    let separated = underscore_separated(text);
    assert(separated == sign + grouped + tail);
    lemma_grouped_digits(whole);
    // Without the underscores it is the text.
    assert forall|i: int| 0 <= i < sign.len() implies #[trigger] sign[i] != '_' by {}
    assert forall|i: int| 0 <= i < tail.len() implies #[trigger] tail[i] != '_' by {
        if i > 0 {
            assert(tail[i] == frac[i - 1]);
            assert(is_digit(frac[i - 1]));
        }
    }
    lemma_without_underscores_same(sign);
    lemma_without_underscores_same(tail);
    lemma_without_underscores_concat(sign + grouped, tail);
    lemma_without_underscores_concat(sign, grouped);
    // It is one word.
    assert forall|i: int| 0 <= i < separated.len() implies !is_whitespace(
        #[trigger] separated[i],
    ) by {
        if i < k {
            assert(separated[i] == '-');
        } else if i < k + grouped.len() {
            assert(separated[i] == grouped[i - k]);
        } else if i == k + grouped.len() {
            assert(separated[i] == '.');
        } else {
            assert(separated[i] == frac[i - k - grouped.len() - 1]);
            assert(is_digit(frac[i - k - grouped.len() - 1]));
        }
    }
}

/// The text of an amount of money with its digits grouped is read back as that
/// amount, wherever the currency of the amount is the one that is known under
/// its code.
pub proof fn lemma_formatted_text_round_trip(money: Money, currencies: Seq<Currency>)
    requires
        money.wf(),
        find_currency(currencies, money.currency.code@) == Some(money.currency),
    ensures
        money_of_text(money.formatted_text(), currencies) == Ok::<Money, MoneyError>(money),
{
    let p = money.currency.precision as nat;
    let raw = money.raw as int;
    let amount = amount_text(raw, p);
    lemma_amount_text_is_read(raw, p);
    lemma_written_parts_are_the_amount(raw, p);
    lemma_separated_amount_text(raw, p);
    lemma_two_words_joined(underscore_separated(amount), money.currency.code@);
    assert(money_of_parts(written_parts(raw, p), money.currency) == Ok::<Money, MoneyError>(money));
}

} // verus!
