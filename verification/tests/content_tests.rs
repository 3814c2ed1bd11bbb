use webview_bridge::content::{
    dev_path_is_remote, setup_content, setup_server_url, BuildMode, ContentSource, ResolveError,
};
use webview_bridge::port::{PortPolicy, ProbeOutcome};

#[test]
fn server_url_gets_scheme_prefix() {
    let url = setup_server_url("localhost", "8080".to_string());
    assert_eq!(url, "http://localhost:8080");
}

#[test]
fn server_url_keeps_existing_scheme() {
    let url = setup_server_url("https://localhost", "8080".to_string());
    assert_eq!(url, "https://localhost:8080");
}

#[test]
fn server_url_prefixes_host_with_bare_http_prefix() {
    let url = setup_server_url("httpx", "8080".to_string());
    assert_eq!(url, "http://httpx:8080");

    let url = setup_server_url("httpd.local", "8080".to_string());
    assert_eq!(url, "http://httpd.local:8080");
}

#[test]
fn server_url_contains_port_text_for_edge_values() {
    let url = setup_server_url("localhost", "0".to_string());
    assert!(url.contains("0"));
    assert!(url.starts_with("http://"));

    let url = setup_server_url("localhost", "4294967295".to_string());
    assert!(url.contains("4294967295"));
    assert!(url.starts_with("http://"));

    let url = setup_server_url("https://localhost", "65535".to_string());
    assert!(url.contains("65535"));
    assert!(url.starts_with("https://"));
}

#[test]
fn dev_remote_path_resolves_verbatim() {
    assert!(dev_path_is_remote("http://localhost:4000"));
    let res = setup_content(BuildMode::Dev {
        dev_path: "http://localhost:4000".to_string(),
        entry_document: None,
    });
    match res {
        Ok(ContentSource::RemoteUrl(u)) => assert_eq!(u, "http://localhost:4000"),
        _ => panic!("expected a remote url"),
    }
}

#[test]
fn dev_local_missing_entry_document_is_fatal() {
    assert!(!dev_path_is_remote("../dist"));
    let res = setup_content(BuildMode::Dev {
        dev_path: "../dist".to_string(),
        entry_document: None,
    });
    match res {
        Err(e @ ResolveError::MissingEntryDocument { .. }) => {
            assert_eq!(
                e.message(),
                "Couldn't find 'index.tauri.html' inside ../dist; did you forget to run 'tauri dev'?"
            );
        }
        _ => panic!("expected a fatal resolution failure"),
    }
}

#[test]
fn dev_local_entry_document_is_inlined_exactly() {
    let markup = "<!doctype html><html><body>dev</body></html>";
    let res = setup_content(BuildMode::Dev {
        dev_path: "../dist".to_string(),
        entry_document: Some(markup.to_string()),
    });
    match res {
        Ok(ContentSource::InlineDocument(d)) => assert_eq!(d, markup),
        _ => panic!("expected an inline document"),
    }
}

#[test]
fn embedded_server_valid_port_builds_url() {
    let res = setup_content(BuildMode::EmbeddedServer {
        host: "localhost".to_string(),
        policy: PortPolicy::Fixed(8080),
        probe: ProbeOutcome::Available(8080),
    });
    match res {
        Ok(ContentSource::LocalServerUrl(u)) => {
            assert_eq!(u, "http://localhost:8080");
            assert!(u.contains("http://"));
        }
        _ => panic!("expected a local server url"),
    }
}

#[test]
fn embedded_server_invalid_port_is_fatal() {
    let res = setup_content(BuildMode::EmbeddedServer {
        host: "localhost".to_string(),
        policy: PortPolicy::Random,
        probe: ProbeOutcome::Unavailable,
    });
    match res {
        Err(e @ ResolveError::InvalidPort) => {
            assert_eq!(e.message(), "unable to determine a usable URL");
        }
        _ => panic!("expected a fatal resolution failure"),
    }
}

#[test]
fn no_server_document_is_inlined_exactly() {
    let markup = "<!doctype html><html><body>baked</body></html>";
    let res = setup_content(BuildMode::NoServer {
        document: markup.to_string(),
    });
    match res {
        Ok(ContentSource::InlineDocument(d)) => assert_eq!(d, markup),
        _ => panic!("expected an inline document"),
    }
}
