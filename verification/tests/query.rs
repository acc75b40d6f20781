use connect_client::query::expand_query;
use connect_client::query::restart_query;
use connect_client::ConnectError;

#[test]
fn expand_both_flags_in_fixed_order() {
    assert_eq!(expand_query(true, true), Ok("?expand=status&expand=info"));
}

#[test]
fn expand_status_only() {
    assert_eq!(expand_query(true, false), Ok("?expand=status"));
}

#[test]
fn expand_info_only() {
    assert_eq!(expand_query(false, true), Ok("?expand=info"));
}

#[test]
fn expand_neither_flag_is_rejected() {
    assert_eq!(expand_query(false, false), Err(ConnectError::InvalidExpandOption));
}

#[test]
fn restart_query_renders_both_flags() {
    assert_eq!(restart_query(true, true), "?includeTasks=true&onlyFailed=true");
    assert_eq!(restart_query(true, false), "?includeTasks=true&onlyFailed=false");
    assert_eq!(restart_query(false, true), "?includeTasks=false&onlyFailed=true");
    assert_eq!(restart_query(false, false), "?includeTasks=false&onlyFailed=false");
}
