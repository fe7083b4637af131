//! Forms: their categories and the states of a filled-in form.

use vstd::prelude::*;

verus! {

/// Enumeration of form categories.
#[derive(Debug, Clone, Copy, PartialEq, Eq, Structural)]
pub enum FormCategory {
    Residential,
    Commercial,
    Land,
    Industry,
    Agricultural,
    Special,
    Other,
}

/// Enumeration of form statuses.
#[derive(Debug, Clone, Copy, PartialEq, Eq, Structural)]
pub enum FormStatus {
    Draft,
    InProgress,
    Completed,
    Invalid,
    Locked,
}

} // verus!
