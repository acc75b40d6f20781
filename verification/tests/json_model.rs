use connect_client::json::lookup;
use connect_client::json::Json;

#[test]
fn lookup_finds_first_binding() {
    let fields = vec![
        ("a".to_string(), Json::Int(1)),
        ("b".to_string(), Json::Int(2)),
        ("a".to_string(), Json::Int(3)),
    ];
    assert_eq!(lookup(&fields, "a"), Some(&Json::Int(1)));
    assert_eq!(lookup(&fields, "b"), Some(&Json::Int(2)));
}

#[test]
fn lookup_misses_absent_key() {
    let fields = vec![("a".to_string(), Json::Int(1))];
    assert_eq!(lookup(&fields, "z"), None);
    assert_eq!(lookup(&Vec::new(), "a"), None);
}
