//! Fixed-point monetary values, a futures-contract instrument model and the
//! normalisation of raw exchange fields into canonical domain values.

pub mod amount;
pub mod bar;
pub mod currency;
pub mod decimal;
pub mod enums;
pub mod fixed;
pub mod futures_contract;
pub mod grouping;
pub mod identifiers;
pub mod instrument;
pub mod money;
pub mod nanos;
pub mod round_trip;
pub mod tardis;
pub mod text;
