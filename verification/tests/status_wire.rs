use connect_client::models::Status;

#[test]
fn status_tokens_round_trip() {
    let all = [
        Status::Paused,
        Status::Running,
        Status::Restarting,
        Status::Failed,
        Status::Unassigned,
        Status::Stopped,
    ];
    for s in all {
        assert_eq!(Status::from_wire(s.wire_name()), Some(s));
    }
}

#[test]
fn status_wire_tokens_are_exact() {
    assert_eq!(Status::Paused.wire_name(), "PAUSED");
    assert_eq!(Status::Running.wire_name(), "RUNNING");
    assert_eq!(Status::Restarting.wire_name(), "RESTARTING");
    assert_eq!(Status::Failed.wire_name(), "FAILED");
    assert_eq!(Status::Unassigned.wire_name(), "UNASSIGNED");
    assert_eq!(Status::Stopped.wire_name(), "STOPPED");
}

#[test]
fn status_unknown_tokens_are_rejected() {
    assert_eq!(Status::from_wire("paused"), None);
    assert_eq!(Status::from_wire("RUNNING "), None);
    assert_eq!(Status::from_wire(""), None);
}

#[test]
fn status_display_names_are_capitalized() {
    assert_eq!(Status::Paused.display_name(), "Paused");
    assert_eq!(Status::Running.display_name(), "Running");
    assert_eq!(Status::Restarting.display_name(), "Restarting");
    assert_eq!(Status::Failed.display_name(), "Failed");
    assert_eq!(Status::Unassigned.display_name(), "Unassigned");
    assert_eq!(Status::Stopped.display_name(), "Stopped");
}
