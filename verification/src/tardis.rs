//! The normalisation of raw Tardis market-data fields into domain values.

pub mod enums;
pub mod parse;
