use connect_client::models::Connector;
use connect_client::models::ConnectorInfo;
use connect_client::models::ConnectorState;
use connect_client::models::ConnectorStatus;
use connect_client::models::Status;
use std::collections::HashMap;

fn sample_info(name: &str) -> ConnectorInfo {
    ConnectorInfo {
        name: name.to_string(),
        config: HashMap::new(),
        tasks: Vec::new(),
        kind: "source".to_string(),
    }
}

fn sample_status(name: &str) -> ConnectorStatus {
    ConnectorStatus {
        connector: ConnectorState {
            connector: None,
            state: Status::Running,
            worker_id: "worker:8083".to_string(),
        },
        name: name.to_string(),
        tasks: Vec::new(),
        kind: "source".to_string(),
    }
}

#[test]
fn name_prefers_info() {
    let connector = Connector {
        info: Some(sample_info("alpha")),
        status: Some(sample_status("beta")),
    };
    assert_eq!(connector.name(), "alpha");
}

#[test]
fn name_with_info_only() {
    let connector = Connector { info: Some(sample_info("alpha")), status: None };
    assert_eq!(connector.name(), "alpha");
}

#[test]
fn name_falls_back_to_status() {
    let connector = Connector { info: None, status: Some(sample_status("beta")) };
    assert_eq!(connector.name(), "beta");
}
