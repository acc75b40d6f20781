use connect_client::classify::classify_create;
use connect_client::classify::classify_delete;
use connect_client::classify::classify_restart;
use connect_client::classify::classify_state_change;
use connect_client::models::ConnectorInfo;
use connect_client::models::ConnectorState;
use connect_client::models::ConnectorStatus;
use connect_client::models::Status;
use connect_client::ConnectError;
use connect_client::ErrorMessage;
use std::collections::HashMap;

fn sample_info(name: &str) -> ConnectorInfo {
    ConnectorInfo {
        name: name.to_string(),
        config: HashMap::new(),
        tasks: Vec::new(),
        kind: "sink".to_string(),
    }
}

fn sample_status(name: &str) -> ConnectorStatus {
    ConnectorStatus {
        connector: ConnectorState {
            connector: None,
            state: Status::Restarting,
            worker_id: "worker:8083".to_string(),
        },
        name: name.to_string(),
        tasks: Vec::new(),
        kind: "sink".to_string(),
    }
}

#[test]
fn create_created_returns_info() {
    let info = sample_info("alpha");
    assert_eq!(classify_create(201, Some(info.clone()), None), Ok(info));
}

#[test]
fn create_created_without_body_is_transport_error() {
    assert_eq!(classify_create(201, None, None), Err(ConnectError::TransportError));
}

#[test]
fn create_bad_request_carries_error_message() {
    let message = ErrorMessage { error_code: 400, message: "bad config".to_string() };
    assert_eq!(
        classify_create(400, None, Some(message.clone())),
        Err(ConnectError::BadRequest(message))
    );
}

#[test]
fn create_bad_request_without_body_is_transport_error() {
    assert_eq!(classify_create(400, None, None), Err(ConnectError::TransportError));
}

#[test]
fn conflict_is_rebalance_for_create_restart_delete() {
    // the body never matters for a 409
    let info = sample_info("alpha");
    let body = sample_status("alpha");
    assert_eq!(
        classify_create(409, Some(info), None),
        Err(ConnectError::RebalancingInProgress)
    );
    assert_eq!(
        classify_restart(409, "alpha", Some(body)),
        Err(ConnectError::RebalancingInProgress)
    );
    assert_eq!(classify_delete(409), Err(ConnectError::RebalancingInProgress));
}

#[test]
fn create_internal_error_and_unknown() {
    assert_eq!(classify_create(500, None, None), Err(ConnectError::InternalError));
    assert_eq!(classify_create(418, None, None), Err(ConnectError::Unknown(418)));
}

#[test]
fn restart_not_found_carries_requested_name() {
    assert_eq!(
        classify_restart(404, "my-connector", None),
        Err(ConnectError::ConnectorNotFound("my-connector".to_string()))
    );
}

#[test]
fn restart_success_empty() {
    assert_eq!(classify_restart(200, "alpha", None), Ok(None));
    assert_eq!(classify_restart(204, "alpha", None), Ok(None));
    // a 200 ignores any body
    assert_eq!(classify_restart(200, "alpha", Some(sample_status("alpha"))), Ok(None));
}

#[test]
fn restart_accepted_carries_body_through() {
    let body = sample_status("alpha");
    assert_eq!(classify_restart(202, "alpha", Some(body.clone())), Ok(Some(body)));
    assert_eq!(classify_restart(202, "alpha", None), Ok(None));
}

#[test]
fn restart_internal_error_and_unknown() {
    assert_eq!(classify_restart(500, "alpha", None), Err(ConnectError::InternalError));
    assert_eq!(classify_restart(302, "alpha", None), Err(ConnectError::Unknown(302)));
}

#[test]
fn delete_success_and_unknown() {
    assert_eq!(classify_delete(200), Ok(()));
    assert_eq!(classify_delete(204), Ok(()));
    assert_eq!(classify_delete(500), Err(ConnectError::Unknown(500)));
    assert_eq!(classify_delete(404), Err(ConnectError::Unknown(404)));
}

#[test]
fn state_change_propagates_non_success_as_unknown() {
    assert_eq!(classify_state_change(200), Ok(()));
    assert_eq!(classify_state_change(202), Ok(()));
    assert_eq!(classify_state_change(204), Ok(()));
    assert_eq!(classify_state_change(409), Err(ConnectError::Unknown(409)));
    assert_eq!(classify_state_change(500), Err(ConnectError::Unknown(500)));
    assert_eq!(classify_state_change(404), Err(ConnectError::Unknown(404)));
}

#[test]
fn error_descriptions_name_the_condition() {
    assert_eq!(
        ConnectError::RebalancingInProgress.describe(),
        "A rebalance may be needed, forthcoming, or underway."
    );
    assert_eq!(
        ConnectError::ConnectorNotFound("alpha".to_string()).describe(),
        "The connector does not exist."
    );
    assert_eq!(
        ConnectError::InvalidExpandOption.describe(),
        "At least one of 'info' or 'status' must be expanded."
    );
    assert_eq!(
        ConnectError::InternalError.describe(),
        "An internal server error occurred while processing the request."
    );
}
