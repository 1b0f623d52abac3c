use vstd::prelude::*;

verus! {

/// An error that the worker reports to its job: a runtime failure with its
/// reason.
pub enum WorkerError {
    RuntimeError(String),
}

impl WorkerError {
    /// The reason carried by the error.
    pub open spec fn reason(self) -> Seq<char> {
        match self {
            WorkerError::RuntimeError(reason) => reason@,
        }
    }
}

} // verus!
