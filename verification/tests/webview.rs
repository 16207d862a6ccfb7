use wpe::webview::{InitGuard, InitialContent, WebViewSettings};
use wpe::Error;

#[test]
fn test_webview_settings() {
    let settings = WebViewSettings::new()
        .with_url("https://example.com")
        .with_developer_tools(true);

    assert_eq!(settings.url, Some("https://example.com".to_string()));
    assert!(settings.developer_tools);
    assert!(settings.javascript_enabled);
}

#[test]
fn default_settings_load_nothing() {
    let settings = WebViewSettings::default();
    assert_eq!(settings.url, None);
    assert_eq!(settings.html, None);
    assert!(!settings.developer_tools);
    assert!(settings.javascript_enabled);
    assert_eq!(settings.user_agent, None);
    assert!(matches!(settings.initial_content(), InitialContent::Nothing));
}

#[test]
fn with_html_keeps_the_other_settings() {
    let settings = WebViewSettings::new().with_developer_tools(true).with_html("<p>hi</p>");
    assert_eq!(settings.html, Some("<p>hi</p>".to_string()));
    assert_eq!(settings.url, None);
    assert!(settings.developer_tools);
    let off = settings.with_developer_tools(false);
    assert!(!off.developer_tools);
    assert_eq!(off.html, Some("<p>hi</p>".to_string()));
}

#[test]
fn url_goes_before_html() {
    let both = WebViewSettings::new().with_html("<p>hi</p>").with_url("https://example.com");
    match both.initial_content() {
        InitialContent::Url(url) => assert_eq!(url, "https://example.com"),
        other => panic!("unexpected content {:?}", other),
    }
    let html = WebViewSettings::new().with_html("<p>hi</p>");
    match html.initial_content() {
        InitialContent::Html(text) => assert_eq!(text, "<p>hi</p>"),
        other => panic!("unexpected content {:?}", other),
    }
}

#[test]
fn backend_is_started_once() {
    let mut guard = InitGuard::new();
    assert!(guard.needs_start());
    assert!(matches!(guard.status(), Err(Error::InitFailed)));
    assert!(guard.record(true).is_ok());
    assert!(!guard.needs_start());
    // a second start changes nothing
    assert!(guard.record(false).is_ok());
    assert!(guard.status().is_ok());
}

#[test]
fn failed_start_stays_failed() {
    let mut guard = InitGuard::new();
    assert!(matches!(guard.record(false), Err(Error::InitFailed)));
    assert!(!guard.needs_start());
    assert!(matches!(guard.record(true), Err(Error::InitFailed)));
    assert!(matches!(guard.status(), Err(Error::InitFailed)));
}

fn finished(failing: Option<usize>) -> wpe::lifecycle::Setup {
    let mut setup = wpe::lifecycle::Setup::begin(wpe::lifecycle::Flow::Exported);
    let mut step = 0;
    let mut directive = setup.directive();
    while let wpe::lifecycle::Directive::Run(_) = directive {
        directive = setup.advance(Some(step) != failing);
        step += 1;
    }
    setup
}

#[test]
fn initialize_starts_the_backend_once() {
    let calls = std::cell::Cell::new(0);
    let start = || {
        calls.set(calls.get() + 1);
        true
    };
    let mut guard = InitGuard::new();
    assert!(wpe::webview::initialize(&mut guard, start).is_ok());
    assert!(wpe::webview::initialize(&mut guard, start).is_ok());
    assert!(wpe::webview::initialize(&mut guard, || false).is_ok());
    assert_eq!(calls.get(), 1);
}

#[test]
fn initialize_reports_a_failed_start_every_time() {
    let calls = std::cell::Cell::new(0);
    let start = || {
        calls.set(calls.get() + 1);
        false
    };
    let mut guard = InitGuard::new();
    assert!(matches!(wpe::webview::initialize(&mut guard, start), Err(Error::InitFailed)));
    assert!(matches!(wpe::webview::initialize(&mut guard, start), Err(Error::InitFailed)));
    assert!(matches!(wpe::webview::initialize(&mut guard, || true), Err(Error::InitFailed)));
    assert_eq!(calls.get(), 1);
}

#[test]
fn web_view_of_a_finished_run() {
    let mut view = wpe::webview::WebView::new(WebViewSettings::new(), finished(None)).unwrap();
    assert!(view.is_live());
    assert_eq!((view.width(), view.height()), (1280, 720));
    assert!(view.settings().javascript_enabled);
    assert_eq!(
        view.load_url("https://example.com").unwrap(),
        wpe::engine::EngineCall::LoadUri { uri: "https://example.com".to_string() }
    );
    assert!(matches!(view.load_url(""), Err(Error::InvalidUrl(_))));
    assert_eq!(
        view.load_html("<p></p>", Some("https://example.com/")).unwrap(),
        wpe::engine::EngineCall::LoadHtml {
            document: "<p></p>".to_string(),
            base_url: Some("https://example.com/".to_string()),
        }
    );
    assert_eq!(
        view.evaluate_script("x").unwrap(),
        wpe::engine::EngineCall::Evaluate { script: "x".to_string(), length: 1 }
    );
    assert_eq!(
        view.resize(640, 480),
        wpe::engine::EngineCall::BackendResized { columns: 640, rows: 480 }
    );
    assert_eq!((view.width(), view.height()), (640, 480));
    assert_eq!(
        view.resize(0, 0),
        wpe::engine::EngineCall::BackendResized { columns: 1, rows: 1 }
    );
    assert_eq!((view.width(), view.height()), (1, 1));
    assert!(matches!(view.load_html("", None), Err(Error::InvalidUrl(_))));
    assert_eq!(view.go_back(), wpe::engine::EngineCall::GoBack);
    assert_eq!(view.go_forward(), wpe::engine::EngineCall::GoForward);
    assert_eq!(view.reload(), wpe::engine::EngineCall::Reload);
    assert_eq!(view.stop(), wpe::engine::EngineCall::StopLoading);
    assert_eq!(view.render(), wpe::engine::EngineCall::FrameComplete);
    assert_eq!(
        view.teardown(),
        vec![wpe::lifecycle::Release::WebView, wpe::lifecycle::Release::Exportable]
    );
    assert!(!view.is_live());
    assert_eq!(view.teardown(), vec![]);
}

#[test]
fn web_view_of_a_failed_run() {
    let failure =
        wpe::webview::WebView::new(WebViewSettings::new(), finished(Some(0))).unwrap_err();
    assert!(matches!(failure.error, Error::InitFailed));
    assert_eq!(failure.releases, vec![]);
    let failure =
        wpe::webview::WebView::new(WebViewSettings::new(), finished(Some(4))).unwrap_err();
    assert!(matches!(failure.error, Error::WebViewCreationFailed));
    assert_eq!(failure.releases, vec![wpe::lifecycle::Release::Exportable]);
}

#[test]
fn test_wpe_initialization() {
    let mut guard = InitGuard::new();
    // Test that we can initialize the WPE loader
    let result = wpe::webview::initialize(&mut guard, || true);
    assert!(result.is_ok(), "WPE initialization should succeed");

    // Calling it again should also succeed (idempotent)
    let result2 = wpe::webview::initialize(&mut guard, || true);
    assert!(result2.is_ok(), "WPE re-initialization should succeed");
}
