use vstd::prelude::*;

verus! {

/// Failures of one work cycle of a task.
#[derive(Debug, Clone, Copy, PartialEq, Eq, Structural)]
pub enum Error {
    FailedToBuildCompany,
    FailedToInsertCompany,
    FailedToGetCompany,
    FailedCrawl,
    FailedProspectExtraction,
    FailedToUdateCompany,
    FailedUpdateWorkerState,
}

} // verus!
