//! Closed enumerations of the domain model.

use vstd::prelude::*;

verus! {

/// The side of an order or of a book level.
#[derive(Clone, Copy, Debug, PartialEq, Eq, Structural, Hash)]
pub enum OrderSide {
    /// No side is known.
    NoOrderSide,
    Buy,
    Sell,
}

/// The party that initiated a trade.
#[derive(Clone, Copy, Debug, PartialEq, Eq, Structural, Hash)]
pub enum AggressorSide {
    /// No aggressor is known.
    NoAggressor,
    Buyer,
    Seller,
}

/// The kind of an option contract.
#[derive(Clone, Copy, Debug, PartialEq, Eq, Structural, Hash)]
pub enum OptionKind {
    Call,
    Put,
}

/// What an order-book update does to a level.
#[derive(Clone, Copy, Debug, PartialEq, Eq, Structural, Hash)]
pub enum BookAction {
    Add,
    Update,
    Delete,
    Clear,
}

/// How the data of a bar is aggregated.
#[derive(Clone, Copy, Debug, PartialEq, Eq, Structural, Hash)]
pub enum BarAggregation {
    Tick,
    TickImbalance,
    TickRuns,
    Volume,
    VolumeImbalance,
    VolumeRuns,
    Value,
    ValueImbalance,
    ValueRuns,
    Millisecond,
    Second,
    Minute,
    Hour,
    Day,
    Week,
    Month,
}

/// The price a bar or a quote is built from.
#[derive(Clone, Copy, Debug, PartialEq, Eq, Structural, Hash)]
pub enum PriceType {
    Bid,
    Ask,
    Mid,
    Last,
}

/// The broad class of the asset an instrument refers to.
#[derive(Clone, Copy, Debug, PartialEq, Eq, Structural, Hash)]
pub enum AssetClass {
    FX,
    Equity,
    Commodity,
    Debt,
    Index,
    Cryptocurrency,
    Alternative,
}

/// The contractual form of an instrument.
#[derive(Clone, Copy, Debug, PartialEq, Eq, Structural, Hash)]
pub enum InstrumentClass {
    Spot,
    Swap,
    Future,
    FutureSpread,
    Forward,
    Cfd,
    Bond,
    Option,
    OptionSpread,
    Warrant,
    SportsBetting,
}

/// The nature of a currency.
#[derive(Clone, Copy, Debug, PartialEq, Eq, Structural, Hash)]
pub enum CurrencyType {
    Crypto,
    Fiat,
    CommodityBacked,
}

} // verus!
