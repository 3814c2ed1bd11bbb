use webview_bridge::server::{map_request_path, strip_scheme};

#[test]
fn root_request_maps_to_entry_document() {
    assert_eq!(map_request_path("/"), "/index.tauri.html");
}

#[test]
fn other_requests_pass_through_verbatim() {
    assert_eq!(map_request_path("/app.js"), "/app.js");
    assert_eq!(map_request_path("/css/site.css"), "/css/site.css");
    assert_eq!(map_request_path(""), "");
    assert_eq!(map_request_path("/index.tauri.html"), "/index.tauri.html");
}

#[test]
fn scheme_is_stripped_for_binding() {
    assert_eq!(strip_scheme("http://localhost:8080"), "localhost:8080");
    assert_eq!(strip_scheme("https://localhost:8080"), "localhost:8080");
    assert_eq!(strip_scheme("localhost:8080"), "localhost:8080");
}
