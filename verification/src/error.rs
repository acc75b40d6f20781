//! The closed error taxonomy of the client.
//!
//! Every status-code-driven outcome is classified into one of these
//! variants before it reaches a caller; no raw status code escapes the
//! facade except inside [`ConnectError::Unknown`].

use vstd::prelude::*;

verus! {

/// Body of a bad-request response: a numeric error code and a
/// human-readable message.
#[derive(Clone, Debug, PartialEq, Eq)]
pub struct ErrorMessage {
    pub error_code: u32,
    pub message: String,
}

/// Everything a client operation can fail with.
#[derive(Clone, Debug, PartialEq, Eq)]
pub enum ConnectError {
    /// The service refused the request body (status 400), with the parsed
    /// error payload.
    BadRequest(ErrorMessage),
    /// A rebalance may be needed, forthcoming, or underway (status 409).
    RebalancingInProgress,
    /// The named connector does not exist (status 404 on restart).
    ConnectorNotFound(String),
    /// An internal server error occurred while processing the request
    /// (status 500).
    InternalError,
    /// At least one of 'info' or 'status' must be expanded.
    InvalidExpandOption,
    /// A network or serialization failure, surfaced unchanged in kind.
    TransportError,
    /// Transient failures persisted past the total retry-time ceiling.
    RetryExhausted,
    /// A status code outside the classified set, carried raw for
    /// diagnostics.
    Unknown(u16),
}

impl ConnectError {
    /// A short description of the error, for diagnostics.
    pub fn describe(&self) -> (r: &'static str)
        ensures
            (*self matches ConnectError::BadRequest(_)) ==> r@
                == "The request was rejected by the service."@,
            (*self matches ConnectError::RebalancingInProgress) ==> r@
                == "A rebalance may be needed, forthcoming, or underway."@,
            (*self matches ConnectError::ConnectorNotFound(_)) ==> r@
                == "The connector does not exist."@,
            (*self matches ConnectError::InternalError) ==> r@
                == "An internal server error occurred while processing the request."@,
            (*self matches ConnectError::InvalidExpandOption) ==> r@
                == "At least one of 'info' or 'status' must be expanded."@,
            (*self matches ConnectError::TransportError) ==> r@
                == "The request could not be carried out by the transport."@,
            (*self matches ConnectError::RetryExhausted) ==> r@
                == "Transient failures persisted past the retry ceiling."@,
            (*self matches ConnectError::Unknown(_)) ==> r@
                == "The service answered with an unrecognized status code."@,
    {
        match self {
            ConnectError::BadRequest(_) => "The request was rejected by the service.",
            ConnectError::RebalancingInProgress => "A rebalance may be needed, forthcoming, or underway.",
            ConnectError::ConnectorNotFound(_) => "The connector does not exist.",
            ConnectError::InternalError => "An internal server error occurred while processing the request.",
            ConnectError::InvalidExpandOption => "At least one of 'info' or 'status' must be expanded.",
            ConnectError::TransportError => "The request could not be carried out by the transport.",
            ConnectError::RetryExhausted => "Transient failures persisted past the retry ceiling.",
            ConnectError::Unknown(_) => "The service answered with an unrecognized status code.",
        }
    }
}

} // verus!
