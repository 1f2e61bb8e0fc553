use vstd::prelude::*;

verus! {

/// Errors of the agent's backend.
#[derive(Debug, PartialEq, Eq)]
pub enum BackendServerError {
    UnknownError,
    /// A reply could not be read as JSON.
    InputParsingError,
    /// A request could not be sent; holds the transport's description of why.
    ReqwestError(String),
}

} // verus!
