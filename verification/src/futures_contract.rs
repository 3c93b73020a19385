//! A deliverable futures contract.

use crate::currency::Currency;
use crate::decimal::{decimal_from_i128_with_scale, decimal_with_scale};
use crate::enums::{AssetClass, InstrumentClass, OptionKind};
use crate::fixed::{Price, Quantity};
use crate::identifiers::{InstrumentId, Symbol};
use crate::instrument::{Instrument, InstrumentAny};
use crate::money::Money;
use crate::nanos::UnixNanos;
use crate::text::{is_blank, str_is_blank};
use rust_decimal::Decimal;
use vstd::prelude::*;
use vstd::std_specs::cmp::{PartialEqSpec, PartialEqSpecImpl};

verus! {

/// A futures contract. Two contracts are the same instrument when their
/// identifiers are equal, whatever their other terms.
#[derive(Debug)]
pub struct FuturesContract {
    pub id: InstrumentId,
    pub raw_symbol: Symbol,
    pub asset_class: AssetClass,
    /// The market identifier code of the exchange on which the contract trades.
    pub exchange: Option<String>,
    pub underlying: String,
    pub activation_ns: UnixNanos,
    pub expiration_ns: UnixNanos,
    pub currency: Currency,
    pub price_precision: u8,
    pub price_increment: Price,
    pub size_increment: Quantity,
    pub size_precision: u8,
    pub multiplier: Quantity,
    pub lot_size: Quantity,
    pub margin_init: Decimal,
    pub margin_maint: Decimal,
    pub max_quantity: Option<Quantity>,
    pub min_quantity: Option<Quantity>,
    pub max_price: Option<Price>,
    pub min_price: Option<Price>,
    pub ts_event: UnixNanos,
    pub ts_init: UnixNanos,
}

/// The term of a futures contract that was found invalid.
#[derive(Clone, Copy, Debug, PartialEq, Eq, Structural)]
pub enum InstrumentError {
    /// The exchange code is given, and is empty or all whitespace.
    InvalidExchange,
    /// The underlying is empty.
    InvalidUnderlying,
    /// The price precision is not the precision of the price increment.
    PricePrecisionMismatch,
    /// The raw value of the price increment is not positive.
    NonPositivePriceIncrement,
}

/// The first term that is invalid, in the order exchange, underlying, price
/// precision, price increment; `None` where all are valid.
pub open spec fn first_invalid_term(
    exchange: Option<Seq<char>>,
    underlying: Seq<char>,
    price_precision: u8,
    price_increment: Price,
) -> Option<InstrumentError> {
    if exchange is Some && is_blank(exchange->0) {
        Some(InstrumentError::InvalidExchange)
    } else if underlying.len() == 0 {
        Some(InstrumentError::InvalidUnderlying)
    } else if price_precision != price_increment.precision {
        Some(InstrumentError::PricePrecisionMismatch)
    } else if price_increment.raw <= 0 {
        Some(InstrumentError::NonPositivePriceIncrement)
    } else {
        None
    }
}

/// The characters of an optional string.
pub open spec fn opt_text(s: Option<String>) -> Option<Seq<char>> {
    match s {
        Some(t) => Some(t@),
        None => None,
    }
}

/// The margin that a contract gets: the one given, else zero.
pub open spec fn margin_or_zero(given: Option<Decimal>) -> Decimal {
    match given {
        Some(margin) => margin,
        None => decimal_with_scale(0, 0),
    }
}

/// The minimum quantity that a contract gets: the one given, else one whole
/// unit.
pub open spec fn quantity_or_one(given: Option<Quantity>) -> Quantity {
    match given {
        Some(quantity) => quantity,
        None => Quantity { raw: 1_000_000_000, precision: 0 },
    }
}

/// The first term that is invalid, in the order exchange, underlying, price
/// precision, price increment; `None` where all are valid.
pub fn check_terms(
    exchange: &Option<String>,
    underlying: &String,
    price_precision: u8,
    price_increment: Price,
) -> (r: Option<InstrumentError>)
    ensures
        r == first_invalid_term(opt_text(*exchange), underlying@, price_precision, price_increment),
{
    match exchange {
        Some(e) => {
            if str_is_blank(e.as_str()) {
                return Some(InstrumentError::InvalidExchange);
            }
        },
        None => {},
    }
    if underlying.as_str().is_empty() {
        return Some(InstrumentError::InvalidUnderlying);
    }
    if price_precision != price_increment.precision {
        return Some(InstrumentError::PricePrecisionMismatch);
    }
    if price_increment.raw <= 0 {
        return Some(InstrumentError::NonPositivePriceIncrement);
    }
    None
}

impl FuturesContract {
    /// The contract that is built from the given terms: each field is the term
    /// of its name; the size increment is one whole unit and the size
    /// precision 0; a margin that is not given is zero; a minimum quantity that
    /// is not given is one whole unit.
    pub open spec fn built(
        id: InstrumentId,
        raw_symbol: Symbol,
        asset_class: AssetClass,
        exchange: Option<String>,
        underlying: String,
        activation_ns: UnixNanos,
        expiration_ns: UnixNanos,
        currency: Currency,
        price_precision: u8,
        price_increment: Price,
        multiplier: Quantity,
        lot_size: Quantity,
        max_quantity: Option<Quantity>,
        min_quantity: Option<Quantity>,
        max_price: Option<Price>,
        min_price: Option<Price>,
        margin_init: Option<Decimal>,
        margin_maint: Option<Decimal>,
        ts_event: UnixNanos,
        ts_init: UnixNanos,
    ) -> FuturesContract {
        FuturesContract {
            id,
            raw_symbol,
            asset_class,
            exchange,
            underlying,
            activation_ns,
            expiration_ns,
            currency,
            price_precision,
            price_increment,
            size_increment: Quantity { raw: 1_000_000_000, precision: 0 },
            size_precision: 0,
            multiplier,
            lot_size,
            margin_init: margin_or_zero(margin_init),
            margin_maint: margin_or_zero(margin_maint),
            max_quantity,
            min_quantity: Some(quantity_or_one(min_quantity)),
            max_price,
            min_price,
            ts_event,
            ts_init,
        }
    }

    /// The contract with the given terms, if they are valid; else the first
    /// term that is not, in the order exchange, underlying, price precision,
    /// price increment.
    ///
    /// The size increment is one whole unit and the size precision 0. A margin
    /// that is not given is zero; a minimum quantity that is not given is one
    /// whole unit.
    pub fn new_checked(
        id: InstrumentId,
        raw_symbol: Symbol,
        asset_class: AssetClass,
        exchange: Option<String>,
        underlying: String,
        activation_ns: UnixNanos,
        expiration_ns: UnixNanos,
        currency: Currency,
        price_precision: u8,
        price_increment: Price,
        multiplier: Quantity,
        lot_size: Quantity,
        max_quantity: Option<Quantity>,
        min_quantity: Option<Quantity>,
        max_price: Option<Price>,
        min_price: Option<Price>,
        margin_init: Option<Decimal>,
        margin_maint: Option<Decimal>,
        ts_event: UnixNanos,
        ts_init: UnixNanos,
    ) -> (r: Result<FuturesContract, InstrumentError>)
        ensures
            match first_invalid_term(
                opt_text(exchange),
                underlying@,
                price_precision,
                price_increment,
            ) {
                Some(e) => r == Err::<FuturesContract, InstrumentError>(e),
                None => r == Ok::<FuturesContract, InstrumentError>(
                    Self::built(
                        id,
                        raw_symbol,
                        asset_class,
                        exchange,
                        underlying,
                        activation_ns,
                        expiration_ns,
                        currency,
                        price_precision,
                        price_increment,
                        multiplier,
                        lot_size,
                        max_quantity,
                        min_quantity,
                        max_price,
                        min_price,
                        margin_init,
                        margin_maint,
                        ts_event,
                        ts_init,
                    ),
                ),
            },
            r matches Ok(c) ==> c.wf(),
    {
        match check_terms(&exchange, &underlying, price_precision, price_increment) {
            Some(e) => {
                return Err(e);
            },
            None => {},
        }
        let margin_init = match margin_init {
            Some(m) => m,
            None => decimal_from_i128_with_scale(0, 0),
        };
        let margin_maint = match margin_maint {
            Some(m) => m,
            None => decimal_from_i128_with_scale(0, 0),
        };
        let min_quantity = match min_quantity {
            Some(q) => q,
            None => Quantity::from_units(1),
        };
        Ok(
            FuturesContract {
                id,
                raw_symbol,
                asset_class,
                exchange,
                underlying,
                activation_ns,
                expiration_ns,
                currency,
                price_precision,
                price_increment,
                size_precision: 0,
                size_increment: Quantity::from_units(1),
                multiplier,
                lot_size,
                margin_init,
                margin_maint,
                max_quantity,
                min_quantity: Some(min_quantity),
                max_price,
                min_price,
                ts_event,
                ts_init,
            },
        )
    }

    /// The contract with the given terms, which the caller knows to be valid.
    pub fn new(
        id: InstrumentId,
        raw_symbol: Symbol,
        asset_class: AssetClass,
        exchange: Option<String>,
        underlying: String,
        activation_ns: UnixNanos,
        expiration_ns: UnixNanos,
        currency: Currency,
        price_precision: u8,
        price_increment: Price,
        multiplier: Quantity,
        lot_size: Quantity,
        max_quantity: Option<Quantity>,
        min_quantity: Option<Quantity>,
        max_price: Option<Price>,
        min_price: Option<Price>,
        margin_init: Option<Decimal>,
        margin_maint: Option<Decimal>,
        ts_event: UnixNanos,
        ts_init: UnixNanos,
    ) -> (r: FuturesContract)
        requires
            first_invalid_term(opt_text(exchange), underlying@, price_precision, price_increment)
                is None,
        ensures
            r == Self::built(
                id,
                raw_symbol,
                asset_class,
                exchange,
                underlying,
                activation_ns,
                expiration_ns,
                currency,
                price_precision,
                price_increment,
                multiplier,
                lot_size,
                max_quantity,
                min_quantity,
                max_price,
                min_price,
                margin_init,
                margin_maint,
                ts_event,
                ts_init,
            ),
            r.wf(),
    {
        let checked = Self::new_checked(
            id,
            raw_symbol,
            asset_class,
            exchange,
            underlying,
            activation_ns,
            expiration_ns,
            currency,
            price_precision,
            price_increment,
            multiplier,
            lot_size,
            max_quantity,
            min_quantity,
            max_price,
            min_price,
            margin_init,
            margin_maint,
            ts_event,
            ts_init,
        );
        checked.unwrap()
    }

    /// Whether the terms of the contract are valid, as they are after
    /// `new_checked` and `new`.
    pub open spec fn wf(&self) -> bool {
        first_invalid_term(
            opt_text(self.exchange),
            self.underlying@,
            self.price_precision,
            self.price_increment,
        ) is None
    }
}

impl Clone for FuturesContract {
    fn clone(&self) -> (r: Self)
        ensures
            r == *self,
    {
        FuturesContract {
            id: self.id.clone(),
            raw_symbol: self.raw_symbol.clone(),
            asset_class: self.asset_class,
            exchange: clone_opt_string(&self.exchange),
            underlying: self.underlying.clone(),
            activation_ns: self.activation_ns,
            expiration_ns: self.expiration_ns,
            currency: self.currency,
            price_precision: self.price_precision,
            price_increment: self.price_increment,
            size_increment: self.size_increment,
            size_precision: self.size_precision,
            multiplier: self.multiplier,
            lot_size: self.lot_size,
            margin_init: self.margin_init,
            margin_maint: self.margin_maint,
            max_quantity: self.max_quantity,
            min_quantity: self.min_quantity,
            max_price: self.max_price,
            min_price: self.min_price,
            ts_event: self.ts_event,
            ts_init: self.ts_init,
        }
    }
}

/// A copy of an optional string.
fn clone_opt_string(s: &Option<String>) -> (r: Option<String>)
    ensures
        r == *s,
{
    match s {
        Some(t) => Some(t.clone()),
        None => None,
    }
}

impl PartialEq for FuturesContract {
    /// Two contracts are equal when their identifiers are.
    fn eq(&self, other: &Self) -> (r: bool) {
        self.id == other.id
    }
}

impl PartialEqSpecImpl for FuturesContract {
    open spec fn obeys_eq_spec() -> bool {
        true
    }

    open spec fn eq_spec(&self, other: &Self) -> bool {
        self.id@ == other.id@
    }
}

impl Eq for FuturesContract {}

/// Two contracts with the same identifier are equal, whatever their other
/// terms; two with different identifiers are not.
pub proof fn lemma_equality_is_by_id(a: FuturesContract, b: FuturesContract)
    ensures
        a.id@ == b.id@ ==> PartialEqSpec::eq_spec(&a, &b),
        a.id@ != b.id@ ==> !PartialEqSpec::eq_spec(&a, &b),
{
}

/// No contract is built whose price precision is not the precision of its
/// price increment.
pub proof fn lemma_precision_mismatch_is_invalid(
    exchange: Option<Seq<char>>,
    underlying: Seq<char>,
    price_precision: u8,
    price_increment: Price,
)
    requires
        price_precision != price_increment.precision,
    ensures
        first_invalid_term(exchange, underlying, price_precision, price_increment) is Some,
        !(exchange is Some && is_blank(exchange->0)) && underlying.len() > 0
            ==> first_invalid_term(exchange, underlying, price_precision, price_increment) == Some(
            InstrumentError::PricePrecisionMismatch,
        ),
{
}

impl Instrument for FuturesContract {
    fn into_any(self) -> (r: InstrumentAny)
        ensures
            r == InstrumentAny::FuturesContract(self),
    {
        InstrumentAny::FuturesContract(self)
    }

    fn id(&self) -> (r: InstrumentId)
        ensures
            r == self.id,
    {
        self.id.clone()
    }

    fn raw_symbol(&self) -> (r: Symbol)
        ensures
            r == self.raw_symbol,
    {
        self.raw_symbol.clone()
    }

    fn asset_class(&self) -> (r: AssetClass)
        ensures
            r == self.asset_class,
    {
        self.asset_class
    }

    fn instrument_class(&self) -> (r: InstrumentClass)
        ensures
            r == InstrumentClass::Future,
    {
        InstrumentClass::Future
    }

    fn underlying(&self) -> (r: Option<String>)
        ensures
            r == Some(self.underlying),
    {
        Some(self.underlying.clone())
    }

    fn base_currency(&self) -> (r: Option<Currency>)
        ensures
            r is None,
    {
        None
    }

    fn quote_currency(&self) -> (r: Currency)
        ensures
            r == self.currency,
    {
        self.currency
    }

    fn settlement_currency(&self) -> (r: Currency)
        ensures
            r == self.currency,
    {
        self.currency
    }

    fn isin(&self) -> (r: Option<String>)
        ensures
            r is None,
    {
        None
    }

    fn option_kind(&self) -> (r: Option<OptionKind>)
        ensures
            r is None,
    {
        None
    }

    fn exchange(&self) -> (r: Option<String>)
        ensures
            r == self.exchange,
    {
        clone_opt_string(&self.exchange)
    }

    fn strike_price(&self) -> (r: Option<Price>)
        ensures
            r is None,
    {
        None
    }

    fn activation_ns(&self) -> (r: Option<UnixNanos>)
        ensures
            r == Some(self.activation_ns),
    {
        Some(self.activation_ns)
    }

    fn expiration_ns(&self) -> (r: Option<UnixNanos>)
        ensures
            r == Some(self.expiration_ns),
    {
        Some(self.expiration_ns)
    }

    fn is_inverse(&self) -> (r: bool)
        ensures
            !r,
    {
        false
    }

    fn price_precision(&self) -> (r: u8)
        ensures
            r == self.price_precision,
    {
        self.price_precision
    }

    fn size_precision(&self) -> (r: u8)
        ensures
            r == 0,
    {
        0
    }

    fn price_increment(&self) -> (r: Price)
        ensures
            r == self.price_increment,
    {
        self.price_increment
    }

    fn size_increment(&self) -> (r: Quantity)
        ensures
            r == (Quantity { raw: 1_000_000_000, precision: 0 }),
    {
        Quantity::from_units(1)
    }

    fn multiplier(&self) -> (r: Quantity)
        ensures
            r == self.multiplier,
    {
        self.multiplier
    }

    fn lot_size(&self) -> (r: Option<Quantity>)
        ensures
            r == Some(self.lot_size),
    {
        Some(self.lot_size)
    }

    fn max_quantity(&self) -> (r: Option<Quantity>)
        ensures
            r == self.max_quantity,
    {
        self.max_quantity
    }

    fn min_quantity(&self) -> (r: Option<Quantity>)
        ensures
            r == self.min_quantity,
    {
        self.min_quantity
    }

    fn max_notional(&self) -> (r: Option<Money>)
        ensures
            r is None,
    {
        None
    }

    fn min_notional(&self) -> (r: Option<Money>)
        ensures
            r is None,
    {
        None
    }

    fn max_price(&self) -> (r: Option<Price>)
        ensures
            r == self.max_price,
    {
        self.max_price
    }

    fn min_price(&self) -> (r: Option<Price>)
        ensures
            r == self.min_price,
    {
        self.min_price
    }

    fn ts_event(&self) -> (r: UnixNanos)
        ensures
            r == self.ts_event,
    {
        self.ts_event
    }

    fn ts_init(&self) -> (r: UnixNanos)
        ensures
            r == self.ts_init,
    {
        self.ts_init
    }
}

} // verus!
