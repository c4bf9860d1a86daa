//! What a traversal of the content directory produced.

use vstd::prelude::*;
use crate::operation_result::OperationResult;
use crate::page_index::PageIndex;

verus! {

/// The pages that were indexed, and the documents that could not be.
pub struct TraverseResults {
    pub page_index: Vec<PageIndex>,
    pub error_count: usize,
    pub errors: Vec<OperationResult>,
}

impl TraverseResults {
    /// The count of errors agrees with the errors held.
    pub open spec fn well_formed(&self) -> bool {
        self.error_count == self.errors.len()
    }

    /// Gathers pages and errors, counting the errors.
    pub fn new(page_index: Vec<PageIndex>, errors: Vec<OperationResult>) -> (res: Self)
        ensures
            res.page_index == page_index,
            res.errors == errors,
            res.error_count == errors.len(),
            res.well_formed(),
    {
        let error_count = errors.len();
        TraverseResults { page_index, error_count, errors }
    }
}

} // verus!
