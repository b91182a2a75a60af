use vstd::prelude::*;

verus! {

/// Every failure that a call can report.
#[derive(Debug)]
pub enum Error {
    /// The transport could not deliver the call or read its answer.
    RequestError(String),
    /// The outgoing request could not be serialized; the text that failed is kept.
    SerdeError(String),
    /// The answer matched no expected shape; the raw body is kept.
    UnexpectedResponse(String),
}

} // verus!
