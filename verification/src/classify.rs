//! Classification of HTTP responses into typed outcomes.
//!
//! Each function is a pure map from an operation's status code (and, for
//! the codes that carry one, an already-decoded body) to a typed result or
//! a [`ConnectError`]. A status code outside an operation's classified set
//! always falls through to [`ConnectError::Unknown`] carrying the raw
//! code; it is never treated as success.

use vstd::prelude::*;
use crate::error::ConnectError;
use crate::error::ErrorMessage;
use crate::models::ConnectorInfo;
use crate::models::ConnectorStatus;

verus! {

/// Classifies the response to a connector creation.
///
/// `info` is the decoded response body of a 201 answer, `None` where the
/// body could not be decoded; `message` likewise for the error payload of
/// a 400 answer. A 409 maps to [`ConnectError::RebalancingInProgress`]
/// whatever the body holds.
pub fn classify_create(status: u16, info: Option<ConnectorInfo>, message: Option<ErrorMessage>)
    -> (r: Result<ConnectorInfo, ConnectError>)
    ensures
        status == 201 && info is Some ==> r == Ok::<ConnectorInfo, ConnectError>(info->0),
        status == 201 && info is None ==> r == Err::<ConnectorInfo, ConnectError>(
            ConnectError::TransportError,
        ),
        status == 400 && message is Some ==> r == Err::<ConnectorInfo, ConnectError>(
            ConnectError::BadRequest(message->0),
        ),
        status == 400 && message is None ==> r == Err::<ConnectorInfo, ConnectError>(
            ConnectError::TransportError,
        ),
        status == 409 ==> r == Err::<ConnectorInfo, ConnectError>(
            ConnectError::RebalancingInProgress,
        ),
        status == 500 ==> r == Err::<ConnectorInfo, ConnectError>(ConnectError::InternalError),
        status != 201 && status != 400 && status != 409 && status != 500 ==> r == Err::<
            ConnectorInfo,
            ConnectError,
        >(ConnectError::Unknown(status)),
{
    match status {
        201 => match info {
            Some(created) => Ok(created),
            None => Err(ConnectError::TransportError),
        },
        400 => match message {
            Some(payload) => Err(ConnectError::BadRequest(payload)),
            None => Err(ConnectError::TransportError),
        },
        409 => Err(ConnectError::RebalancingInProgress),
        500 => Err(ConnectError::InternalError),
        _ => Err(ConnectError::Unknown(status)),
    }
}

/// Classifies the response to a connector restart.
///
/// A 200 or 204 answer is an empty success; a 202 answer carries the
/// (possibly absent) status body through; a 404 names the requested
/// connector in [`ConnectError::ConnectorNotFound`]; a 409 maps to
/// [`ConnectError::RebalancingInProgress`] whatever the body holds.
pub fn classify_restart(status: u16, name: &str, body: Option<ConnectorStatus>) -> (r: Result<
    Option<ConnectorStatus>,
    ConnectError,
>)
    ensures
        status == 200 || status == 204 ==> r == Ok::<Option<ConnectorStatus>, ConnectError>(
            None::<ConnectorStatus>,
        ),
        status == 202 ==> r == Ok::<Option<ConnectorStatus>, ConnectError>(body),
        status == 404 ==> (r matches Err(e) && e matches ConnectError::ConnectorNotFound(n)
            && n@ == name@),
        status == 409 ==> r == Err::<Option<ConnectorStatus>, ConnectError>(
            ConnectError::RebalancingInProgress,
        ),
        status == 500 ==> r == Err::<Option<ConnectorStatus>, ConnectError>(
            ConnectError::InternalError,
        ),
        status != 200 && status != 204 && status != 202 && status != 404 && status != 409
            && status != 500 ==> r == Err::<Option<ConnectorStatus>, ConnectError>(
            ConnectError::Unknown(status),
        ),
{
    match status {
        200 | 204 => Ok(None),
        202 => Ok(body),
        404 => Err(ConnectError::ConnectorNotFound(name.to_owned())),
        409 => Err(ConnectError::RebalancingInProgress),
        500 => Err(ConnectError::InternalError),
        _ => Err(ConnectError::Unknown(status)),
    }
}

/// Classifies the response to a connector deletion.
///
/// A 200 or 204 answer is an empty success; a 409 maps to
/// [`ConnectError::RebalancingInProgress`] whatever the body holds; every
/// other code is unknown.
pub fn classify_delete(status: u16) -> (r: Result<(), ConnectError>)
    ensures
        status == 200 || status == 204 ==> r == Ok::<(), ConnectError>(()),
        status == 409 ==> r == Err::<(), ConnectError>(ConnectError::RebalancingInProgress),
        status != 200 && status != 204 && status != 409 ==> r == Err::<(), ConnectError>(
            ConnectError::Unknown(status),
        ),
{
    match status {
        200 | 204 => Ok(()),
        409 => Err(ConnectError::RebalancingInProgress),
        _ => Err(ConnectError::Unknown(status)),
    }
}

/// Classifies the response to a pause, resume, or stop request.
///
/// Any success code is an empty success; every non-success status
/// propagates as [`ConnectError::Unknown`] rather than being assumed
/// successful.
pub fn classify_state_change(status: u16) -> (r: Result<(), ConnectError>)
    ensures
        200 <= status <= 299 <==> r == Ok::<(), ConnectError>(()),
        !(200 <= status <= 299) ==> r == Err::<(), ConnectError>(ConnectError::Unknown(status)),
{
    if 200 <= status && status <= 299 {
        Ok(())
    } else {
        Err(ConnectError::Unknown(status))
    }
}

} // verus!
