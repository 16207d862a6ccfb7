use wpe::lifecycle::{
    Command, Directive, Fault, Flow, HandleSet, Release, Resource, Setup, SignalKind,
    BACKEND_LIBRARY, DEFAULT_HEIGHT, DEFAULT_TITLE, DEFAULT_WIDTH,
};
use wpe::Error;

fn run(flow: Flow, outcomes: &[bool]) -> (Setup, Vec<Command>, Directive) {
    let mut setup = Setup::begin(flow);
    let mut commands = Vec::new();
    let mut directive = setup.directive();
    let mut next = 0;
    while let Directive::Run(command) = directive {
        commands.push(command);
        let outcome = outcomes.get(next).copied().unwrap_or(true);
        next += 1;
        directive = setup.advance(outcome);
    }
    (setup, commands, directive)
}

#[test]
fn teardown_twice_releases_once() {
    let (setup, _, directive) = run(Flow::Native, &[]);
    assert_eq!(directive, Directive::Ready);
    let mut handles = setup.into_handles();
    assert_eq!(
        handles.teardown(),
        vec![
            Release::DisconnectSignals,
            Release::WebView,
            Release::View,
            Release::Display,
            Release::Queues,
        ]
    );
    assert!(handles.is_empty());
    assert_eq!(handles.teardown(), vec![]);
    assert_eq!(handles.teardown(), vec![]);
    assert!(!handles.holds(Resource::WebView));
}

#[test]
fn teardown_order_is_fixed() {
    let mut handles = HandleSet::new();
    assert!(handles.is_empty());
    // acquired in an order of its own
    for resource in [
        Resource::Queues,
        Resource::Display,
        Resource::Exportable,
        Resource::View,
        Resource::WebView,
        Resource::Signals,
    ] {
        handles.acquire(resource);
        assert!(handles.holds(resource));
    }
    assert_eq!(
        handles.teardown(),
        vec![
            Release::DisconnectSignals,
            Release::WebView,
            Release::View,
            Release::Display,
            Release::Exportable,
            Release::Queues,
        ]
    );
    assert!(handles.is_empty());
}

#[test]
fn teardown_leaves_out_what_is_not_held() {
    let mut handles = HandleSet::new();
    handles.acquire(Resource::Display);
    handles.acquire(Resource::Queues);
    handles.acquire(Resource::Display);
    assert!(!handles.holds(Resource::WebView));
    assert_eq!(handles.teardown(), vec![Release::Display, Release::Queues]);
}

#[test]
fn native_run_makes_each_call_once() {
    let (setup, commands, directive) = run(Flow::Native, &[]);
    assert_eq!(directive, Directive::Ready);
    assert_eq!(
        commands,
        vec![
            Command::DefaultDisplay,
            Command::ConnectDisplay,
            Command::CreateWebView,
            Command::ContentManager,
            Command::PinQueues,
            Command::ConnectSignal(SignalKind::ScriptMessage),
            Command::RegisterChannel,
            Command::WebViewView,
            Command::ConfigureView,
            Command::SetTitle,
            Command::ConnectSignal(SignalKind::LoadChanged),
            Command::ConnectSignal(SignalKind::Title),
            Command::ConnectSignal(SignalKind::Uri),
            Command::ConnectSignal(SignalKind::Progress),
        ]
    );
    assert!(setup.holds(Resource::WebView));
    assert!(setup.holds(Resource::View));
    assert!(setup.holds(Resource::Signals));
    assert!(setup.holds(Resource::Queues));
    assert!(setup.holds(Resource::Display));
    assert!(!setup.holds(Resource::Exportable));
}

#[test]
fn native_run_without_display_fails_with_nothing_to_release() {
    let (setup, commands, directive) = run(Flow::Native, &[false]);
    assert_eq!(commands, vec![Command::DefaultDisplay]);
    assert_eq!(directive, Directive::Abort(Fault::InitFailed));
    assert_eq!(setup.into_handles().teardown(), vec![]);
}

#[test]
fn native_run_that_cannot_connect_releases_the_display() {
    let (setup, commands, directive) = run(Flow::Native, &[true, false]);
    assert_eq!(commands.len(), 2);
    assert_eq!(directive, Directive::Abort(Fault::InitFailed));
    assert_eq!(setup.into_handles().teardown(), vec![Release::Display]);
}

#[test]
fn native_run_releases_what_it_made_when_it_fails() {
    // no web view
    let (setup, _, directive) = run(Flow::Native, &[true, true, false]);
    assert_eq!(directive, Directive::Abort(Fault::WebViewCreationFailed));
    assert_eq!(setup.into_handles().teardown(), vec![Release::Display]);
    // no content manager
    let (setup, _, directive) = run(Flow::Native, &[true, true, true, false]);
    assert_eq!(directive, Directive::Abort(Fault::WebViewCreationFailed));
    assert_eq!(setup.into_handles().teardown(), vec![Release::WebView, Release::Display]);
    // no view, after the script signal was connected
    let mut outcomes = vec![true; 7];
    outcomes.push(false);
    let (setup, commands, directive) = run(Flow::Native, &outcomes);
    assert_eq!(commands.last(), Some(&Command::WebViewView));
    assert_eq!(directive, Directive::Abort(Fault::WebViewCreationFailed));
    assert_eq!(
        setup.into_handles().teardown(),
        vec![Release::DisconnectSignals, Release::WebView, Release::Display, Release::Queues]
    );
}

#[test]
fn signals_that_do_not_connect_are_passed_over() {
    // every signal connection and the registration fail
    let mut outcomes = vec![true; 14];
    for at in [5, 6, 10, 11, 12, 13] {
        outcomes[at] = false;
    }
    let (setup, commands, directive) = run(Flow::Native, &outcomes);
    assert_eq!(commands.len(), 14);
    assert_eq!(directive, Directive::Ready);
    assert!(!setup.holds(Resource::Signals));
    assert_eq!(
        setup.into_handles().teardown(),
        vec![Release::WebView, Release::View, Release::Display, Release::Queues]
    );
}

#[test]
fn headless_run_in_order() {
    let (setup, commands, directive) = run(Flow::Headless, &[]);
    assert_eq!(directive, Directive::Ready);
    assert_eq!(
        commands,
        vec![
            Command::HeadlessDisplay,
            Command::ConnectDisplay,
            Command::CreateView,
            Command::ConfigureView,
            Command::CreateWebView,
            Command::ContentManager,
            Command::PinQueues,
            Command::ConnectSignal(SignalKind::ScriptMessage),
            Command::RegisterChannel,
        ]
    );
    assert_eq!(
        setup.into_handles().teardown(),
        vec![
            Release::DisconnectSignals,
            Release::WebView,
            Release::View,
            Release::Display,
            Release::Queues,
        ]
    );
}

#[test]
fn headless_run_failures() {
    let (setup, _, directive) = run(Flow::Headless, &[false]);
    assert_eq!(directive, Directive::Abort(Fault::HeadlessDisplay));
    assert_eq!(setup.into_handles().teardown(), vec![]);

    let (setup, _, directive) = run(Flow::Headless, &[true, false]);
    assert_eq!(directive, Directive::Abort(Fault::HeadlessConnect));
    assert_eq!(setup.into_handles().teardown(), vec![Release::Display]);

    let (setup, _, directive) = run(Flow::Headless, &[true, true, false]);
    assert_eq!(directive, Directive::Abort(Fault::HeadlessView));
    assert_eq!(setup.into_handles().teardown(), vec![Release::Display]);

    let (setup, _, directive) = run(Flow::Headless, &[true, true, true, true, false]);
    assert_eq!(directive, Directive::Abort(Fault::HeadlessWebView));
    assert_eq!(setup.into_handles().teardown(), vec![Release::View, Release::Display]);
}

#[test]
fn headless_run_without_content_manager_takes_no_messages() {
    let (setup, commands, directive) = run(Flow::Headless, &[true, true, true, true, true, false]);
    assert_eq!(directive, Directive::Ready);
    assert_eq!(commands.last(), Some(&Command::ContentManager));
    assert_eq!(commands.len(), 6);
    assert_eq!(
        setup.into_handles().teardown(),
        vec![Release::WebView, Release::View, Release::Display]
    );
}

#[test]
fn exported_run_and_its_failures() {
    let (setup, commands, directive) = run(Flow::Exported, &[]);
    assert_eq!(directive, Directive::Ready);
    assert_eq!(
        commands,
        vec![
            Command::LoadBackend,
            Command::CreateExportable,
            Command::ViewBackend,
            Command::WebKitBackend,
            Command::CreateWebView,
        ]
    );
    assert_eq!(setup.into_handles().teardown(), vec![Release::WebView, Release::Exportable]);

    let (setup, _, directive) = run(Flow::Exported, &[false]);
    assert_eq!(directive, Directive::Abort(Fault::InitFailed));
    assert_eq!(setup.into_handles().teardown(), vec![]);
    let (setup, _, directive) = run(Flow::Exported, &[true, false]);
    assert_eq!(directive, Directive::Abort(Fault::WebViewCreationFailed));
    assert_eq!(setup.into_handles().teardown(), vec![]);
    for failing in 2..5 {
        let mut outcomes = vec![true; failing];
        outcomes.push(false);
        let (setup, _, directive) = run(Flow::Exported, &outcomes);
        assert_eq!(directive, Directive::Abort(Fault::WebViewCreationFailed));
        assert_eq!(setup.into_handles().teardown(), vec![Release::Exportable]);
    }
}

#[test]
fn a_finished_run_stays_as_it_is() {
    let (mut setup, _, _) = run(Flow::Exported, &[]);
    assert_eq!(setup.advance(false), Directive::Ready);
    assert_eq!(setup.advance(true), Directive::Ready);
    assert_eq!(setup.directive(), Directive::Ready);
    let (mut setup, _, _) = run(Flow::Exported, &[false]);
    assert_eq!(setup.advance(true), Directive::Abort(Fault::InitFailed));
    assert_eq!(setup.directive(), Directive::Abort(Fault::InitFailed));
}

#[test]
fn finish_hands_over_handles_or_releases() {
    let (setup, _, _) = run(Flow::Exported, &[]);
    let mut handles = setup.finish().unwrap();
    assert!(handles.holds(Resource::WebView));
    assert_eq!(handles.teardown(), vec![Release::WebView, Release::Exportable]);
    let (setup, _, _) = run(Flow::Exported, &[true, true, false]);
    let (fault, releases) = setup.finish().unwrap_err();
    assert_eq!(fault, Fault::WebViewCreationFailed);
    assert_eq!(releases, vec![Release::Exportable]);
}

#[test]
fn already_connected_display_counts_as_connected() {
    let native = Setup::begin(Flow::Native);
    assert!(native.display_connected(true, None));
    assert!(native.display_connected(false, Some("Display is already connected")));
    assert!(native.display_connected(false, Some("already connected")));
    assert!(!native.display_connected(false, Some("connection refused")));
    assert!(!native.display_connected(false, Some("already connecte")));
    assert!(!native.display_connected(false, None));
    let headless = Setup::begin(Flow::Headless);
    assert!(headless.display_connected(true, Some("whatever")));
    assert!(!headless.display_connected(false, Some("already connected")));
}

#[test]
fn faults_are_reported_as_errors() {
    assert!(matches!(Fault::InitFailed.to_error(), Error::InitFailed));
    assert!(matches!(Fault::WebViewCreationFailed.to_error(), Error::WebViewCreationFailed));
    let text = |fault: Fault| match fault.to_error() {
        Error::X11Error(text) => text,
        other => panic!("unexpected error {:?}", other),
    };
    assert_eq!(text(Fault::HeadlessDisplay), "Failed to create headless WPE display");
    assert_eq!(text(Fault::HeadlessConnect), "Failed to connect headless display");
    assert_eq!(text(Fault::HeadlessView), "Failed to create WPE view");
    assert_eq!(text(Fault::HeadlessWebView), "Failed to create WebKit web view");
}

#[test]
fn signal_names_and_defaults() {
    assert_eq!(SignalKind::ScriptMessage.signal_name(), "script-message-received::wpe");
    assert_eq!(SignalKind::LoadChanged.signal_name(), "load-changed");
    assert_eq!(SignalKind::Title.signal_name(), "notify::title");
    assert_eq!(SignalKind::Uri.signal_name(), "notify::uri");
    assert_eq!(SignalKind::Progress.signal_name(), "notify::estimated-load-progress");
    assert_eq!((DEFAULT_WIDTH, DEFAULT_HEIGHT), (1280, 720));
    assert_eq!(DEFAULT_TITLE, "WPE WebView");
    assert_eq!(BACKEND_LIBRARY, "libWPEBackend-fdo-1.0.so");
}
