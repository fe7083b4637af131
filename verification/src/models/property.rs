//! Kinds of property and of valuation.

use vstd::prelude::*;

verus! {

/// Enumeration of property types.
#[derive(Debug, Clone, Copy, PartialEq, Eq, Structural)]
pub enum PropertyType {
    SingleFamily,
    Condo,
    Townhouse,
    MultiFamily,
    Land,
    Commercial,
    Industrial,
    Agricultural,
    Other,
}

/// Enumeration of valuation methods.
#[derive(Debug, Clone, Copy, PartialEq, Eq, Structural)]
pub enum ValuationMethod {
    SalesComparison,
    IncomeApproach,
    CostApproach,
    Automated,
    Combined,
}

} // verus!
