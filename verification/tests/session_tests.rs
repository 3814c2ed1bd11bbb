use webview_bridge::content::ContentSource;
use webview_bridge::dispatch::SplashState;
use webview_bridge::session::{build_webview_plan, WindowConfig};

fn config() -> WindowConfig {
    WindowConfig {
        width: 800,
        height: 600,
        resizable: true,
        fullscreen: false,
        title: "app".to_string(),
        debug: false,
    }
}

#[test]
fn splash_plan_opens_on_splash_content() {
    let plan = build_webview_plan(
        config(),
        ContentSource::LocalServerUrl("http://localhost:8080".to_string()),
        Some("<html>splash</html>".to_string()),
    );
    match &plan.initial_content {
        ContentSource::InlineDocument(d) => assert_eq!(d, "<html>splash</html>"),
        _ => panic!("expected the splash document first"),
    }
    assert!(plan.inject_bootstrap);
    assert!(plan.dispatcher.has_splashscreen);
    assert!(matches!(plan.dispatcher.state, SplashState::AwaitingInit));
    assert_eq!(plan.dispatcher.main_href, "http://localhost:8080");
}

#[test]
fn plain_plan_opens_on_main_content() {
    let plan = build_webview_plan(
        config(),
        ContentSource::RemoteUrl("http://localhost:4000".to_string()),
        None,
    );
    match &plan.initial_content {
        ContentSource::RemoteUrl(u) => assert_eq!(u, "http://localhost:4000"),
        _ => panic!("expected the main content first"),
    }
    assert!(!plan.inject_bootstrap);
    assert!(!plan.dispatcher.has_splashscreen);
    assert!(matches!(plan.dispatcher.state, SplashState::ShowingMain));
    assert_eq!(plan.dispatcher.main_href, "http://localhost:4000");
    assert_eq!(plan.window.width, 800);
    assert_eq!(plan.window.title, "app");
}
