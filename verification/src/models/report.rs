//! Appraisal reports: their states, their kinds, and the requests that
//! move them along.

use vstd::prelude::*;

verus! {

/// Enumeration of report statuses.
#[derive(Debug, Clone, Copy, PartialEq, Eq, Structural)]
pub enum ReportStatus {
    Draft,
    InProgress,
    Submitted,
    UnderReview,
    NeedsCorrection,
    Approved,
    Rejected,
    Finalized,
}

/// Enumeration of report types.
#[derive(Debug, Clone, Copy, PartialEq, Eq, Structural)]
pub enum ReportType {
    /// Uniform Residential Appraisal Report.
    Form1004,
    /// Individual Condominium Unit Appraisal Report.
    Form1073,
    /// Small Residential Income Property Appraisal Report.
    Form1025,
    /// Manufactured Home Appraisal Report.
    Form1004C,
    /// Exterior-Only Inspection Residential Appraisal Report.
    Form2055,
    /// Commercial Property Appraisal Report.
    CommercialForm,
    /// Desktop Appraisal Report.
    DesktopAppraisal,
    /// Broker Price Opinion.
    BPO,
    /// Other report type.
    Other,
}

/// Request to submit a report.
#[derive(Debug, Clone, PartialEq, Eq)]
pub struct SubmitReportRequest {
    /// Optional comments for whoever examines the report.
    pub comments: Option<String>,
}

/// Request to review a report.
#[derive(Debug, Clone, PartialEq, Eq)]
pub struct ReviewReportRequest {
    /// New status for the report.
    pub status: ReportStatus,
    /// Review comments.
    pub comments: String,
}

} // verus!
