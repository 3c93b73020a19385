//! The description of an aggregated bar.

use crate::enums::{BarAggregation, PriceType};
use vstd::prelude::*;

verus! {

/// How a bar is built: `step` units of `aggregation`, from prices of
/// `price_type`.
#[derive(Clone, Copy, Debug, PartialEq, Eq, Structural, Hash)]
pub struct BarSpecification {
    pub step: usize,
    pub aggregation: BarAggregation,
    pub price_type: PriceType,
}

impl BarSpecification {
    /// The specification with the given fields.
    pub fn new(step: usize, aggregation: BarAggregation, price_type: PriceType) -> (r:
        BarSpecification)
        ensures
            r == (BarSpecification { step, aggregation, price_type }),
    {
        BarSpecification { step, aggregation, price_type }
    }
}

} // verus!
