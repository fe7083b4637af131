//! Appraisal orders: their states, purposes and kinds.

use vstd::prelude::*;

verus! {

/// Enumeration of appraisal statuses.
#[derive(Debug, Clone, Copy, PartialEq, Eq, Structural)]
pub enum AppraisalStatus {
    New,
    Assigned,
    Scheduled,
    InProgress,
    PendingReview,
    RevisionNeeded,
    Completed,
    Cancelled,
    OnHold,
}

/// Enumeration of appraisal purposes.
#[derive(Debug, Clone, Copy, PartialEq, Eq, Structural)]
pub enum AppraisalPurpose {
    Purchase,
    Refinance,
    HomeEquity,
    PMI,
    PreListing,
    Estate,
    Divorce,
    TaxAppeal,
    Bankruptcy,
    RelocationEstimate,
    Insurance,
    Other,
}

/// Enumeration of appraisal types.
#[derive(Debug, Clone, Copy, PartialEq, Eq, Structural)]
pub enum AppraisalType {
    FullAppraisal,
    DriveBy,
    Desktop,
    Automated,
    BPO,
    Other,
}

} // verus!
