//! What every kind of tradable instrument answers.

use crate::currency::Currency;
use crate::enums::{AssetClass, InstrumentClass, OptionKind};
use crate::fixed::{Price, Quantity};
use crate::futures_contract::FuturesContract;
use crate::identifiers::{InstrumentId, Symbol};
use crate::money::Money;
use crate::nanos::UnixNanos;
use vstd::prelude::*;

verus! {

/// Any instrument, whatever its kind.
#[non_exhaustive]
#[derive(Debug)]
pub enum InstrumentAny {
    FuturesContract(FuturesContract),
}

/// The questions that an instrument of any kind answers. Where a question does
/// not apply to a kind, the answer is `None`.
pub trait Instrument: Sized {
    /// The instrument as a value of the type that holds any kind.
    fn into_any(self) -> InstrumentAny;

    /// The identifier under which the instrument is kept.
    fn id(&self) -> InstrumentId;

    /// The symbol as the venue spells it.
    fn raw_symbol(&self) -> Symbol;

    fn asset_class(&self) -> AssetClass;

    fn instrument_class(&self) -> InstrumentClass;

    /// What the instrument is derived from.
    fn underlying(&self) -> Option<String>;

    fn base_currency(&self) -> Option<Currency>;

    fn quote_currency(&self) -> Currency;

    fn settlement_currency(&self) -> Currency;

    fn isin(&self) -> Option<String>;

    fn option_kind(&self) -> Option<OptionKind>;

    /// The code of the exchange on which the instrument trades.
    fn exchange(&self) -> Option<String>;

    fn strike_price(&self) -> Option<Price>;

    /// From when the instrument can be traded.
    fn activation_ns(&self) -> Option<UnixNanos>;

    /// Until when the instrument can be traded.
    fn expiration_ns(&self) -> Option<UnixNanos>;

    /// Whether the contract is quoted in its own base currency.
    fn is_inverse(&self) -> bool;

    fn price_precision(&self) -> u8;

    fn size_precision(&self) -> u8;

    fn price_increment(&self) -> Price;

    fn size_increment(&self) -> Quantity;

    fn multiplier(&self) -> Quantity;

    fn lot_size(&self) -> Option<Quantity>;

    fn max_quantity(&self) -> Option<Quantity>;

    fn min_quantity(&self) -> Option<Quantity>;

    fn max_notional(&self) -> Option<Money>;

    fn min_notional(&self) -> Option<Money>;

    fn max_price(&self) -> Option<Price>;

    fn min_price(&self) -> Option<Price>;

    /// When the terms were published.
    fn ts_event(&self) -> UnixNanos;

    /// When the value was made.
    fn ts_init(&self) -> UnixNanos;
}

} // verus!
