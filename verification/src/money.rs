//! An amount of money in a currency, kept as a fixed-point integer.

use crate::amount::{
    amount_in_range, amount_raw, amount_text, amount_ticks, decimal_raw, decimal_whole,
    lemma_amount_raw_bound, magnitude_u64, parse_decimal, push_amount, scan_decimal,
    strip_underscores, without_underscores, DecimalParts,
};
use crate::currency::{find_currency, Currency, CurrencyRegistry};
use crate::decimal::{decimal_from_i128_with_scale, decimal_with_scale};
use crate::fixed::{lemma_pow10_le_scale, pow10_u64, tick};
use crate::grouping::{separate_with_underscores, underscore_separated};
use crate::text::{all_digits, skip_whitespace, skip_word, str_eq, string_of, to_chars, two_words};
use rust_decimal::Decimal;
use std::cmp::Ordering;
use std::ops::{Add, Neg, Sub};
use vstd::arithmetic::div_mod::{lemma_fundamental_div_mod, lemma_mod_multiples_basic};
use vstd::prelude::*;
use vstd::std_specs::cmp::PartialEqSpecImpl;
use vstd::std_specs::ops::{AddSpecImpl, NegSpecImpl, SubSpecImpl};
use vstd::string::StringExecFns;

verus! {

/// The largest amount of money, in whole units.
pub const MONEY_MAX: i64 = 9_223_372_036;

/// The smallest amount of money, in whole units.
pub const MONEY_MIN: i64 = -9_223_372_036;

/// The raw value of the largest amount of money.
pub const MONEY_RAW_MAX: i64 = 9_223_372_036_000_000_000;

/// The raw value of the smallest amount of money.
pub const MONEY_RAW_MIN: i64 = -9_223_372_036_000_000_000;

/// An amount of money: `raw` counts units of `10^-9` of the currency, of which
/// `currency.precision` decimal digits are meaningful.
#[derive(Clone, Copy, Debug)]
pub struct Money {
    /// The amount, in units of `10^-9`.
    pub raw: i64,
    /// The currency of the amount.
    pub currency: Currency,
}

/// Why no amount of money was made.
#[derive(Clone, Copy, Debug, PartialEq, Eq, Structural)]
pub enum MoneyError {
    /// The text is not two words, an amount and a currency code.
    InvalidFormat,
    /// The amount is no decimal number.
    InvalidAmount,
    /// No currency of that code is known.
    UnknownCurrency,
    /// The amount is not within `MONEY_MIN` and `MONEY_MAX`.
    OutOfRange,
    /// The precision of the currency is above 9.
    InvalidPrecision,
}

/// The money that a decimal number is in `currency`, rounded to the precision
/// of the currency, or why it is none.
pub open spec fn money_of_parts(parts: DecimalParts, currency: Currency) -> Result<
    Money,
    MoneyError,
> {
    if !amount_in_range(parts) {
        Err(MoneyError::OutOfRange)
    } else if currency.precision > 9 {
        Err(MoneyError::InvalidPrecision)
    } else {
        Ok(Money { raw: amount_raw(parts, currency.precision as nat) as i64, currency })
    }
}

/// The money that the decimal number `amount` is in `currency`, or why it is
/// none.
pub open spec fn money_of_amount(amount: Seq<char>, currency: Currency) -> Result<
    Money,
    MoneyError,
> {
    match parse_decimal(amount) {
        None => Err(MoneyError::InvalidAmount),
        Some(parts) => money_of_parts(parts, currency),
    }
}

/// The money that `text` spells, or why it spells none. The text is an amount
/// and a currency code, with whitespace around and between them; underscores
/// in the amount are passed over; the code is looked up in `currencies`.
pub open spec fn money_of_text(text: Seq<char>, currencies: Seq<Currency>) -> Result<
    Money,
    MoneyError,
> {
    match two_words(text) {
        None => Err(MoneyError::InvalidFormat),
        Some((amount, code)) => match parse_decimal(without_underscores(amount)) {
            None => Err(MoneyError::InvalidAmount),
            Some(parts) => match find_currency(currencies, code) {
                None => Err(MoneyError::UnknownCurrency),
                Some(currency) => money_of_parts(parts, currency),
            },
        },
    }
}

/// The whole steps of `10^-p` in `raw`, what is left over being dropped.
pub open spec fn truncated_ticks(raw: int, p: nat) -> int
    recommends
        p <= 9,
{
    if raw < 0 {
        -((-raw) / (tick(p) as int))
    } else {
        raw / (tick(p) as int)
    }
}

/// Why two amounts could not be combined.
#[derive(Clone, Copy, Debug, PartialEq, Eq, Structural)]
pub enum ArithmeticError {
    /// The two amounts are of different currencies.
    CurrencyMismatch,
    /// The result does not fit the raw integer.
    Overflow,
}

impl Money {
    /// Whether the amount is one that `new_checked` makes: the currency is
    /// valid, the raw value lies on a step of the precision of the currency,
    /// and the amount is within `MONEY_MIN` and `MONEY_MAX`.
    pub open spec fn wf(&self) -> bool {
        &&& self.currency.wf()
        &&& (self.raw as int) % (tick(self.currency.precision as nat) as int) == 0
        &&& MONEY_RAW_MIN <= self.raw <= MONEY_RAW_MAX
    }

    /// The amount with the given raw value in `currency`; nothing is checked.
    pub fn from_raw(raw: i64, currency: Currency) -> (r: Money)
        ensures
            r == (Money { raw, currency }),
    {
        Money { raw, currency }
    }

    /// The money that the decimal number `amount` is in `currency`: the amount
    /// rounded to the precision of the currency, a half away from zero. An
    /// error where `amount` is no decimal number, else where its magnitude is
    /// above `MONEY_MAX`, else where the precision of the currency is above 9.
    pub fn new_checked(amount: &str, currency: Currency) -> (r: Result<Money, MoneyError>)
        ensures
            r == money_of_amount(amount@, currency),
            currency.wf() ==> (r matches Ok(money) ==> money.wf()),
    {
        let v = to_chars(amount);
        let span = match scan_decimal(&v) {
            Some(span) => span,
            None => {
                return Err(MoneyError::InvalidAmount);
            },
        };
        proof {
            if currency.wf() {
                lemma_made_money_is_wf(span.parts(v@), currency);
            }
        }
        let whole = match decimal_whole(&v, span) {
            Some(whole) => whole,
            None => {
                return Err(MoneyError::OutOfRange);
            },
        };
        if currency.precision > 9 {
            return Err(MoneyError::InvalidPrecision);
        }
        proof {
            lemma_amount_raw_bound(span.parts(v@), currency.precision as nat);
        }
        let raw = decimal_raw(&v, span, whole, currency.precision);
        Ok(Money { raw, currency })
    }

    /// The money that the decimal number `amount` is in `currency`, which the
    /// caller knows to be one.
    pub fn new(amount: &str, currency: Currency) -> (r: Money)
        requires
            money_of_amount(amount@, currency) is Ok,
        ensures
            money_of_amount(amount@, currency) == Ok::<Money, MoneyError>(r),
            currency.wf() ==> r.wf(),
    {
        let checked = Self::new_checked(amount, currency);
        checked.unwrap()
    }

    /// The money that `value` spells, an amount and the code of a currency of
    /// `registry`, or why it spells none.
    pub fn from_str(value: &str, registry: &CurrencyRegistry) -> (r: Result<Money, MoneyError>)
        requires
            registry.wf(),
        ensures
            r == money_of_text(value@, registry@),
            r matches Ok(money) ==> money.wf(),
    {
        let v = to_chars(value);
        let len = v.len();
        let a0 = skip_whitespace(&v, 0);
        if a0 == len {
            return Err(MoneyError::InvalidFormat);
        }
        let a1 = skip_word(&v, a0);
        let b0 = skip_whitespace(&v, a1);
        if b0 == len {
            return Err(MoneyError::InvalidFormat);
        }
        let b1 = skip_word(&v, b0);
        if skip_whitespace(&v, b1) != len {
            return Err(MoneyError::InvalidFormat);
        }
        let amount = strip_underscores(&v, a0, a1);
        let span = match scan_decimal(&amount) {
            Some(span) => span,
            None => {
                return Err(MoneyError::InvalidAmount);
            },
        };
        let code = string_of(&v, b0, b1);
        let currency = match registry.lookup(code.as_str()) {
            Some(currency) => currency,
            None => {
                return Err(MoneyError::UnknownCurrency);
            },
        };
        let whole = match decimal_whole(&amount, span) {
            Some(whole) => whole,
            None => {
                return Err(MoneyError::OutOfRange);
            },
        };
        proof {
            lemma_amount_raw_bound(span.parts(amount@), currency.precision as nat);
            lemma_made_money_is_wf(span.parts(amount@), currency);
        }
        let raw = decimal_raw(&amount, span, whole, currency.precision);
        Ok(Money { raw, currency })
    }

    /// The amount as text: written with exactly as many decimal digits as the
    /// currency has, a space, and the code of the currency.
    pub open spec fn text(&self) -> Seq<char> {
        amount_text(self.raw as int, self.currency.precision as nat) + seq![' ']
            + self.currency.code@
    }

    /// The amount as text with the digits of the whole part grouped by threes,
    /// a space, and the code of the currency.
    pub open spec fn formatted_text(&self) -> Seq<char> {
        underscore_separated(amount_text(self.raw as int, self.currency.precision as nat)) + seq![
            ' ',
        ] + self.currency.code@
    }

    /// The amount as it is shown for inspection: `Money(`, the amount, a comma
    /// and a space, the code of the currency, `)`.
    pub open spec fn debug_text(&self) -> Seq<char> {
        seq!['M', 'o', 'n', 'e', 'y', '('] + amount_text(
            self.raw as int,
            self.currency.precision as nat,
        ) + seq![',', ' '] + self.currency.code@ + seq![')']
    }

    /// The amount written with exactly as many decimal digits as the currency
    /// has.
    fn amount_string(&self) -> (r: String)
        requires
            self.currency.precision <= 9,
        ensures
            r@ == amount_text(self.raw as int, self.currency.precision as nat),
    {
        let mut out: Vec<char> = Vec::new();
        push_amount(&mut out, self.raw, self.currency.precision);
        let r = string_of(&out, 0, out.len());
        assert(out@.subrange(0, out@.len() as int) == out@);
        r
    }

    /// The amount as text: the amount, a space, the code of the currency.
    pub fn to_string(&self) -> (r: String)
        requires
            self.currency.precision <= 9,
        ensures
            r@ == self.text(),
    {
        let mut s = self.amount_string();
        s.push(' ');
        s.append(self.currency.code);
        s
    }

    /// The amount as text, with the digits of the whole part grouped by threes.
    pub fn to_formatted_string(&self) -> (r: String)
        requires
            self.currency.precision <= 9,
        ensures
            r@ == self.formatted_text(),
    {
        let amount = self.amount_string();
        let mut s = separate_with_underscores(amount.as_str());
        s.push(' ');
        s.append(self.currency.code);
        s
    }

    /// The amount as it is shown for inspection.
    pub fn to_debug_string(&self) -> (r: String)
        requires
            self.currency.precision <= 9,
        ensures
            r@ == self.debug_text(),
    {
        proof {
            reveal_strlit("Money(");
            reveal_strlit(", ");
            assert("Money("@ =~= seq!['M', 'o', 'n', 'e', 'y', '(']);
            assert(", "@ =~= seq![',', ' ']);
        }
        let mut s = String::from_str("Money(");
        let amount = self.amount_string();
        s.append(amount.as_str());
        s.append(", ");
        s.append(self.currency.code);
        s.push(')');
        s
    }

    /// The amount as a decimal of as many decimal digits as the currency has;
    /// what the raw value holds beyond them is dropped.
    pub fn as_decimal(&self) -> (d: Decimal)
        requires
            self.currency.precision <= 9,
        ensures
            d == decimal_with_scale(
                truncated_ticks(self.raw as int, self.currency.precision as nat),
                self.currency.precision as nat,
            ),
    {
        let precision = self.currency.precision;
        let step = pow10_u64(9 - precision);
        let ticks = magnitude_u64(self.raw) / step;
        let rescaled: i128 = if self.raw < 0 {
            -(ticks as i128)
        } else {
            ticks as i128
        };
        decimal_from_i128_with_scale(rescaled, precision as u32)
    }

    /// Whether the amount is nothing.
    pub fn is_zero(&self) -> (r: bool)
        ensures
            r == (self.raw == 0),
    {
        self.raw == 0
    }

    /// Whether both amounts are of the same currency, that is, whether they can
    /// be added, subtracted and ordered.
    pub open spec fn same_currency(&self, other: &Money) -> bool {
        self.currency.code@ == other.currency.code@
    }

    /// The amount with the opposite sign.
    pub open spec fn negated(self) -> Money {
        Money { raw: (-self.raw) as i64, currency: self.currency }
    }

    /// Whether `rhs` can be added: it is of the same currency and the sum of the
    /// raw values fits.
    pub open spec fn can_add(self, rhs: Money) -> bool {
        self.same_currency(&rhs) && i64::MIN <= self.raw + rhs.raw <= i64::MAX
    }

    /// The sum of both amounts, in the currency of `self`.
    pub open spec fn plus(self, rhs: Money) -> Money {
        Money { raw: (self.raw + rhs.raw) as i64, currency: self.currency }
    }

    /// Whether `rhs` can be subtracted: it is of the same currency and the
    /// difference of the raw values fits.
    pub open spec fn can_sub(self, rhs: Money) -> bool {
        self.same_currency(&rhs) && i64::MIN <= self.raw - rhs.raw <= i64::MAX
    }

    /// The difference of both amounts, in the currency of `self`.
    pub open spec fn minus(self, rhs: Money) -> Money {
        Money { raw: (self.raw - rhs.raw) as i64, currency: self.currency }
    }

    /// Whether both amounts are of the same currency.
    pub fn is_same_currency(&self, other: &Money) -> (r: bool)
        ensures
            r == self.same_currency(other),
    {
        str_eq(self.currency.code, other.currency.code)
    }

    /// The sum of both amounts, in the currency of `self`: an error where the
    /// currencies differ, else an error where the sum of the raw values does not
    /// fit.
    pub fn checked_add(self, rhs: Money) -> (r: Result<Money, ArithmeticError>)
        ensures
            !self.same_currency(&rhs) ==> r == Err::<Money, ArithmeticError>(
                ArithmeticError::CurrencyMismatch,
            ),
            self.same_currency(&rhs) && !self.can_add(rhs) ==> r == Err::<Money, ArithmeticError>(
                ArithmeticError::Overflow,
            ),
            self.can_add(rhs) ==> r == Ok::<Money, ArithmeticError>(self.plus(rhs)),
    {
        if !self.is_same_currency(&rhs) {
            return Err(ArithmeticError::CurrencyMismatch);
        }
        match self.raw.checked_add(rhs.raw) {
            Some(raw) => Ok(Money { raw, currency: self.currency }),
            None => Err(ArithmeticError::Overflow),
        }
    }

    /// The difference of both amounts, in the currency of `self`: an error where
    /// the currencies differ, else an error where the difference of the raw
    /// values does not fit.
    pub fn checked_sub(self, rhs: Money) -> (r: Result<Money, ArithmeticError>)
        ensures
            !self.same_currency(&rhs) ==> r == Err::<Money, ArithmeticError>(
                ArithmeticError::CurrencyMismatch,
            ),
            self.same_currency(&rhs) && !self.can_sub(rhs) ==> r == Err::<Money, ArithmeticError>(
                ArithmeticError::Overflow,
            ),
            self.can_sub(rhs) ==> r == Ok::<Money, ArithmeticError>(self.minus(rhs)),
    {
        if !self.is_same_currency(&rhs) {
            return Err(ArithmeticError::CurrencyMismatch);
        }
        match self.raw.checked_sub(rhs.raw) {
            Some(raw) => Ok(Money { raw, currency: self.currency }),
            None => Err(ArithmeticError::Overflow),
        }
    }

    /// Adds `other` to the amount in place.
    pub fn add_assign(&mut self, other: Money)
        requires
            old(self).can_add(other),
        ensures
            *final(self) == old(self).plus(other),
    {
        self.raw = self.raw + other.raw;
    }

    /// Subtracts `other` from the amount in place.
    pub fn sub_assign(&mut self, other: Money)
        requires
            old(self).can_sub(other),
        ensures
            *final(self) == old(self).minus(other),
    {
        self.raw = self.raw - other.raw;
    }

    /// How the amount stands to `other`, of the same currency: as their raw
    /// values stand to each other.
    pub fn cmp(&self, other: &Money) -> (r: Ordering)
        requires
            self.same_currency(other),
        ensures
            r is Less <==> self.raw < other.raw,
            r is Equal <==> self.raw == other.raw,
            r is Greater <==> self.raw > other.raw,
    {
        if self.raw < other.raw {
            Ordering::Less
        } else if self.raw == other.raw {
            Ordering::Equal
        } else {
            Ordering::Greater
        }
    }

    /// Whether the amount is smaller than `other`, of the same currency.
    pub fn lt(&self, other: &Money) -> (r: bool)
        requires
            self.same_currency(other),
        ensures
            r == (self.raw < other.raw),
    {
        self.raw < other.raw
    }

    /// Whether the amount is at most `other`, of the same currency.
    pub fn le(&self, other: &Money) -> (r: bool)
        requires
            self.same_currency(other),
        ensures
            r == (self.raw <= other.raw),
    {
        self.raw <= other.raw
    }

    /// Whether the amount is greater than `other`, of the same currency.
    pub fn gt(&self, other: &Money) -> (r: bool)
        requires
            self.same_currency(other),
        ensures
            r == (self.raw > other.raw),
    {
        self.raw > other.raw
    }

    /// Whether the amount is at least `other`, of the same currency.
    pub fn ge(&self, other: &Money) -> (r: bool)
        requires
            self.same_currency(other),
        ensures
            r == (self.raw >= other.raw),
    {
        self.raw >= other.raw
    }
}

impl PartialEq for Money {
    /// Two amounts are equal when their raw values and their currencies are.
    fn eq(&self, other: &Self) -> (r: bool) {
        self.raw == other.raw && self.currency == other.currency
    }
}

impl PartialEqSpecImpl for Money {
    open spec fn obeys_eq_spec() -> bool {
        true
    }

    open spec fn eq_spec(&self, other: &Self) -> bool {
        self.raw == other.raw && self.same_currency(other)
    }
}

impl Eq for Money {}

impl NegSpecImpl for Money {
    open spec fn obeys_neg_spec() -> bool {
        true
    }

    open spec fn neg_req(self) -> bool {
        self.raw != i64::MIN
    }

    open spec fn neg_spec(self) -> Money {
        self.negated()
    }
}

impl Neg for Money {
    type Output = Money;

    /// The amount with the opposite sign.
    fn neg(self) -> (r: Money) {
        Money { raw: -self.raw, currency: self.currency }
    }
}

impl AddSpecImpl for Money {
    open spec fn obeys_add_spec() -> bool {
        true
    }

    open spec fn add_req(self, rhs: Money) -> bool {
        self.can_add(rhs)
    }

    open spec fn add_spec(self, rhs: Money) -> Money {
        self.plus(rhs)
    }
}

impl Add for Money {
    type Output = Money;

    /// The sum of two amounts of one currency.
    fn add(self, rhs: Money) -> (r: Money) {
        Money { raw: self.raw + rhs.raw, currency: self.currency }
    }
}

impl SubSpecImpl for Money {
    open spec fn obeys_sub_spec() -> bool {
        true
    }

    open spec fn sub_req(self, rhs: Money) -> bool {
        self.can_sub(rhs)
    }

    open spec fn sub_spec(self, rhs: Money) -> Money {
        self.minus(rhs)
    }
}

impl Sub for Money {
    type Output = Money;

    /// The difference of two amounts of one currency.
    fn sub(self, rhs: Money) -> (r: Money) {
        Money { raw: self.raw - rhs.raw, currency: self.currency }
    }
}

/// The money that is made of a decimal number in a valid currency is well
/// formed.
pub proof fn lemma_made_money_is_wf(parts: DecimalParts, currency: Currency)
    requires
        currency.wf(),
        all_digits(parts.frac_digits),
    ensures
        money_of_parts(parts, currency) matches Ok(money) ==> money.wf(),
{
    if amount_in_range(parts) {
        let p = currency.precision as nat;
        lemma_amount_raw_bound(parts, p);
        lemma_pow10_le_scale((9 - p) as nat);
        let t = tick(p) as int;
        let n = amount_ticks(parts, p) as int;
        lemma_mod_multiples_basic(n, t);
        lemma_mod_multiples_basic(-n, t);
        assert(-(n * t) == (-n) * t) by (nonlinear_arith);
    }
}

/// The negation of a well-formed amount is well formed.
pub proof fn lemma_negation_keeps_wf(money: Money)
    requires
        money.wf(),
    ensures
        money.negated().wf(),
{
    let p = money.currency.precision as nat;
    lemma_pow10_le_scale((9 - p) as nat);
    let t = tick(p) as int;
    let raw = money.raw as int;
    let q = raw / t;
    lemma_fundamental_div_mod(raw, t);
    assert(-raw == (-q) * t) by (nonlinear_arith)
        requires
            raw == t * q + 0,
    ;
    lemma_mod_multiples_basic(-q, t);
}

/// The sum and the difference of two well-formed amounts of one currency are
/// well formed, where they are within range.
pub proof fn lemma_sum_keeps_wf(x: Money, y: Money)
    requires
        x.wf(),
        y.wf(),
        x.currency == y.currency,
    ensures
        MONEY_RAW_MIN <= x.raw + y.raw <= MONEY_RAW_MAX ==> x.can_add(y) && x.plus(y).wf(),
        MONEY_RAW_MIN <= x.raw - y.raw <= MONEY_RAW_MAX ==> x.can_sub(y) && x.minus(y).wf(),
{
    let p = x.currency.precision as nat;
    lemma_pow10_le_scale((9 - p) as nat);
    let t = tick(p) as int;
    let a = x.raw as int;
    let b = y.raw as int;
    lemma_fundamental_div_mod(a, t);
    lemma_fundamental_div_mod(b, t);
    let qa = a / t;
    let qb = b / t;
    assert(a + b == (qa + qb) * t) by (nonlinear_arith)
        requires
            a == t * qa + 0,
            b == t * qb + 0,
    ;
    assert(a - b == (qa - qb) * t) by (nonlinear_arith)
        requires
            a == t * qa + 0,
            b == t * qb + 0,
    ;
    lemma_mod_multiples_basic(qa + qb, t);
    lemma_mod_multiples_basic(qa - qb, t);
}

/// An amount and its negation add up to nothing, in the same currency. The one
/// raw value that has no negation is left out.
pub proof fn lemma_add_neg_is_zero(x: Money)
    requires
        x.raw != i64::MIN,
    ensures
        x.can_add(x.negated()),
        x.plus(x.negated()).raw == 0,
        x.plus(x.negated()).currency == x.currency,
{
}

} // verus!
