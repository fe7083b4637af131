//! What the record stores have in common: table names, the operations of
//! a repository, and paging.

use vstd::prelude::*;
use crate::error::AppResult;

verus! {

/// Table names for each model.
pub struct TableNames;

impl TableNames {
    pub const USERS: &'static str = "users";

    pub const PROPERTIES: &'static str = "properties";

    pub const REPORTS: &'static str = "reports";

    pub const FORM_TEMPLATES: &'static str = "form_templates";

    pub const FORM_INSTANCES: &'static str = "form_instances";

    pub const APPRAISALS: &'static str = "appraisals";

    pub const COMPARABLES: &'static str = "comparables";

    pub const MARKET_DATA: &'static str = "market_data";
}

/// Repository trait for database operations.
pub trait Repository<T, ID> {
    /// What the repository keeps true of itself; every operation
    /// needs it and leaves it in place.
    spec fn wf(&self) -> bool;

    /// Create a new record.
    fn create(&mut self, item: &T) -> (created: AppResult<T>)
        requires
            old(self).wf(),
        ensures
            final(self).wf(),
    ;

    /// Get a record by ID.
    fn get_by_id(&self, id: ID) -> (found: AppResult<T>)
        requires
            self.wf(),
    ;

    /// Update a record.
    fn update(&mut self, id: ID, item: &T) -> (updated: AppResult<T>)
        requires
            old(self).wf(),
        ensures
            final(self).wf(),
    ;

    /// Delete a record.
    fn delete(&mut self, id: ID) -> (removed: AppResult<()>)
        requires
            old(self).wf(),
        ensures
            final(self).wf(),
    ;

    /// Get all records.
    fn get_all(&self) -> (all: AppResult<Vec<T>>)
        requires
            self.wf(),
    ;
}

/// Largest number of records on one page.
pub const MAX_PAGE_SIZE: i64 = 100;

/// Pagination helper.
#[derive(Debug, Clone, Copy, PartialEq, Eq)]
pub struct Pagination {
    pub page: i64,
    pub page_size: i64,
}

/// `x` kept within `lo..=hi`.
pub open spec fn clamp(x: int, lo: int, hi: int) -> int {
    if x < lo {
        lo
    } else if x > hi {
        hi
    } else {
        x
    }
}

impl Pagination {
    /// The page is at least the first one and the page size lies in `1..=100`.
    pub open spec fn wf(&self) -> bool {
        &&& self.page >= 1
        &&& 1 <= self.page_size <= MAX_PAGE_SIZE
    }

    /// A page request: the page is raised to 1 and the page size is kept
    /// within `1..=100`.
    pub fn new(page: i64, page_size: i64) -> (p: Pagination)
        ensures
            p.wf(),
            p.page == clamp(page as int, 1, i64::MAX as int),
            p.page_size == clamp(page_size as int, 1, 100),
    {
        let page: i64 = if page < 1 {
            1
        } else {
            page
        };
        let page_size: i64 = if page_size < 1 {
            1
        } else if page_size > MAX_PAGE_SIZE {
            MAX_PAGE_SIZE
        } else {
            page_size
        };
        Pagination { page, page_size }
    }

    /// The number of records to skip: those of the pages before this one,
    /// kept within the range of `i64`.
    pub fn offset(&self) -> (skip: i64)
        ensures
            skip == clamp((self.page - 1) * self.page_size, i64::MIN as int, i64::MAX as int),
            self.wf() ==> skip >= 0,
    {
        let before: i128 = self.page as i128 - 1;
        let size: i128 = self.page_size as i128;
        assert(-0x8000_0000_0000_0001 <= before <= 0x7fff_ffff_ffff_fffe);
        assert(-0x8000_0000_0000_0000 <= size <= 0x7fff_ffff_ffff_ffff);
        assert(-0x4000_0000_0000_0000_8000_0000_0000_0000 <= before * size
            <= 0x4000_0000_0000_0000_8000_0000_0000_0000) by (nonlinear_arith)
            requires
                -0x8000_0000_0000_0001 <= before <= 0x7fff_ffff_ffff_fffe,
                -0x8000_0000_0000_0000 <= size <= 0x7fff_ffff_ffff_ffff,
        ;
        let skip: i128 = before * size;
        assert(self.wf() ==> before * size >= 0) by (nonlinear_arith)
            requires
                self.wf() ==> before >= 0 && size >= 1,
        ;
        if skip > i64::MAX as i128 {
            i64::MAX
        } else if skip < i64::MIN as i128 {
            i64::MIN
        } else {
            skip as i64
        }
    }

    /// The number of records on a page.
    pub fn limit(&self) -> (size: i64)
        ensures
            size == self.page_size,
    {
        self.page_size
    }
}

} // verus!
