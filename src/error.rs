use vstd::prelude::*;

verus! {

/// The errors of the administrative client.
#[derive(Debug, Clone, PartialEq, Eq)]
pub enum Error {
    /// The response does not hold exactly one result per expression sent.
    CountMismatch { expected: usize, actual: usize },
    /// A result came without its status header.
    MissingHeader,
    /// A result came without the named payload.
    MissingResult { name: String, expected: usize, actual: usize },
    /// The remote side reported a failure status.
    OperationFailed { code: u32, msg: String },
    /// The remote side reported rows that it failed to mutate.
    MutateFailure { failure: u32 },
}

} // verus!
