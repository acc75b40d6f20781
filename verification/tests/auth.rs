use connect_client::auth::basic_auth_header;

#[test]
fn basic_auth_encodes_credentials() {
    let header = basic_auth_header(Some("user"), Some("pass")).unwrap();
    assert_eq!(header, "Basic dXNlcjpwYXNz");
}

#[test]
fn basic_auth_absent_password_reads_as_empty() {
    let header = basic_auth_header(Some("user"), None).unwrap();
    assert_eq!(header, "Basic dXNlcjo=");
}

#[test]
fn basic_auth_empty_password_matches_absent_one() {
    assert_eq!(
        basic_auth_header(Some("user"), Some("")),
        basic_auth_header(Some("user"), None)
    );
}

#[test]
fn basic_auth_without_username_sends_no_header() {
    assert_eq!(basic_auth_header(None, Some("pass")), None);
    assert_eq!(basic_auth_header(None, None), None);
}
