//! Query-string construction for the operations that carry one.

use vstd::prelude::*;
use crate::error::ConnectError;

verus! {

/// Builds the query string of a connector listing with expansion.
///
/// Exactly the requested `expand` parameters appear, in fixed order:
/// `status` before `info` when both are set. When neither flag is set the
/// listing is refused client-side with [`ConnectError::InvalidExpandOption`],
/// before any request is issued.
pub fn expand_query(expand_status: bool, expand_info: bool) -> (r: Result<&'static str,
    ConnectError>)
    ensures
        r is Err <==> !expand_status && !expand_info,
        r is Err ==> r == Err::<&'static str, ConnectError>(ConnectError::InvalidExpandOption),
        expand_status && expand_info ==> (r matches Ok(q) && q@ == "?expand=status&expand=info"@),
        expand_status && !expand_info ==> (r matches Ok(q) && q@ == "?expand=status"@),
        !expand_status && expand_info ==> (r matches Ok(q) && q@ == "?expand=info"@),
{
    match (expand_status, expand_info) {
        (true, true) => Ok("?expand=status&expand=info"),
        (true, false) => Ok("?expand=status"),
        (false, true) => Ok("?expand=info"),
        (false, false) => Err(ConnectError::InvalidExpandOption),
    }
}

/// Builds the query string of a connector restart.
///
/// Both flags always appear, `includeTasks` first, each rendered as the
/// lower-case boolean token.
pub fn restart_query(include_tasks: bool, only_failed: bool) -> (r: &'static str)
    ensures
        include_tasks && only_failed ==> r@ == "?includeTasks=true&onlyFailed=true"@,
        include_tasks && !only_failed ==> r@ == "?includeTasks=true&onlyFailed=false"@,
        !include_tasks && only_failed ==> r@ == "?includeTasks=false&onlyFailed=true"@,
        !include_tasks && !only_failed ==> r@ == "?includeTasks=false&onlyFailed=false"@,
{
    match (include_tasks, only_failed) {
        (true, true) => "?includeTasks=true&onlyFailed=true",
        (true, false) => "?includeTasks=true&onlyFailed=false",
        (false, true) => "?includeTasks=false&onlyFailed=true",
        (false, false) => "?includeTasks=false&onlyFailed=false",
    }
}

} // verus!
