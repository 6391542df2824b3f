//! What a failed operation reports.

use vstd::prelude::*;
use vstd::string::to_string_from_display_ensures;

verus! {

/// Declares `std::io::Error`, in which the codec reports its faults.
/// Nothing is claimed of what is inside it.
#[verifier::external_type_specification]
#[verifier::external_body]
pub struct ExIoError(std::io::Error);

/// The operation that a failure belongs to.
#[derive(Clone, Copy, Debug, PartialEq, Eq, Structural)]
pub enum Operation {
    /// Encoding a message into a frame.
    Compress,
    /// Decoding a frame back into the message.
    Decompress,
}

/// A failed operation. It names the operation and carries the reason that
/// the codec gave, so that corrupt input can be told from an exhausted
/// resource. A failure never comes with partial output.
#[derive(Debug, PartialEq, Eq)]
pub struct CodecError {
    /// The operation that failed.
    pub operation: Operation,
    /// The codec's own words for what went wrong.
    pub reason: String,
}

/// `error` reports that `operation` failed with `cause`: it names the
/// operation, and its reason is the text that `cause` displays as.
pub open spec fn reports(error: CodecError, operation: Operation, cause: std::io::Error) -> bool {
    &&& error.operation == operation
    &&& to_string_from_display_ensures::<std::io::Error>(&cause, error.reason)
}

impl CodecError {
    /// The error for `operation` failing with `cause`.
    pub fn from_cause(operation: Operation, cause: &std::io::Error) -> (error: Self)
        ensures
            reports(error, operation, *cause),
    {
        CodecError { operation, reason: cause.to_string() }
    }
}

} // verus!
