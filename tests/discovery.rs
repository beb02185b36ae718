use pisugar_server::discovery::{cleanup_paths, decimal_string, discovery_json, discovery_path};

#[test]
fn discovery_body() {
    assert_eq!(discovery_json(8081), "{\"wsPort\": \"8081\"}");
    assert_eq!(discovery_json(0), "{\"wsPort\": \"0\"}");
}

#[test]
fn decimal_text() {
    assert_eq!(decimal_string(0), "0");
    assert_eq!(decimal_string(7), "7");
    assert_eq!(decimal_string(10), "10");
    assert_eq!(decimal_string(65535), "65535");
}

#[test]
fn discovery_file_path() {
    assert_eq!(discovery_path("web"), "web/_ws.json");
    assert_eq!(discovery_path("/srv/web/"), "/srv/web/_ws.json");
    assert_eq!(discovery_path(""), "_ws.json");
}

#[test]
fn cleanup_removes_socket_and_discovery_file() {
    let p = cleanup_paths(Some("/tmp/pisugar.sock".to_string()), Some("web".to_string()));
    assert_eq!(p, vec!["/tmp/pisugar.sock".to_string(), "web/_ws.json".to_string()]);
    let p = cleanup_paths(None, Some("web".to_string()));
    assert_eq!(p, vec!["web/_ws.json".to_string()]);
    let p = cleanup_paths(Some("/tmp/s".to_string()), None);
    assert_eq!(p, vec!["/tmp/s".to_string()]);
    assert!(cleanup_paths(None, None).is_empty());
}
