//! The settings of a web view, and the one-time start of the rendering
//! backend.

use crate::engine::{
    evaluate_call, evaluates, load_html_call, load_uri_call, loads_html, loads_url, EngineCall,
};
use crate::error::Error;
use crate::ipc::text_of;
use crate::renderer::clamped;
use crate::lifecycle::{
    CreationFailure, Handles, HandleSet, Phase, Release, Resource, Setup, DEFAULT_HEIGHT,
    DEFAULT_WIDTH,
};
use vstd::prelude::*;
use vstd::string::StringExecFns;

verus! {

/// Settings for creating a WebView.
#[derive(Debug, Clone)]
pub struct WebViewSettings {
    /// Initial URL to load
    pub url: Option<String>,
    /// Initial HTML content to load
    pub html: Option<String>,
    /// Enable developer tools
    pub developer_tools: bool,
    /// Enable JavaScript
    pub javascript_enabled: bool,
    /// User agent string
    pub user_agent: Option<String>,
}

/// What a view shows first.
#[derive(Debug, Clone)]
pub enum InitialContent {
    /// The page at a URL.
    Url(String),
    /// A document given as text.
    Html(String),
    /// Nothing.
    Nothing,
}

impl Default for WebViewSettings {
    /// Nothing to load, no developer tools, JavaScript enabled, and the
    /// engine's own user agent.
    fn default() -> (settings: Self)
        ensures
            settings.url is None,
            settings.html is None,
            !settings.developer_tools,
            settings.javascript_enabled,
            settings.user_agent is None,
    {
        WebViewSettings {
            url: None,
            html: None,
            developer_tools: false,
            javascript_enabled: true,
            user_agent: None,
        }
    }
}

impl WebViewSettings {
    /// The default settings.
    #[must_use]
    pub fn new() -> (settings: Self)
        ensures
            settings.url is None,
            settings.html is None,
            !settings.developer_tools,
            settings.javascript_enabled,
            settings.user_agent is None,
    {
        WebViewSettings {
            url: None,
            html: None,
            developer_tools: false,
            javascript_enabled: true,
            user_agent: None,
        }
    }

    /// These settings with the given URL to load first.
    #[must_use]
    pub fn with_url(self, url: &str) -> (settings: Self)
        ensures
            text_of(settings.url) == Some(url@),
            settings.html == self.html,
            settings.developer_tools == self.developer_tools,
            settings.javascript_enabled == self.javascript_enabled,
            settings.user_agent == self.user_agent,
    {
        let mut settings = self;
        settings.url = Some(String::from_str(url));
        settings
    }

    /// These settings with the given document to load first.
    #[must_use]
    pub fn with_html(self, html: &str) -> (settings: Self)
        ensures
            text_of(settings.html) == Some(html@),
            settings.url == self.url,
            settings.developer_tools == self.developer_tools,
            settings.javascript_enabled == self.javascript_enabled,
            settings.user_agent == self.user_agent,
    {
        let mut settings = self;
        settings.html = Some(String::from_str(html));
        settings
    }

    /// These settings with developer tools switched on or off.
    #[must_use]
    pub fn with_developer_tools(self, enabled: bool) -> (settings: Self)
        ensures
            settings.developer_tools == enabled,
            settings.url == self.url,
            settings.html == self.html,
            settings.javascript_enabled == self.javascript_enabled,
            settings.user_agent == self.user_agent,
    {
        let mut settings = self;
        settings.developer_tools = enabled;
        settings
    }

    /// What a view with these settings shows first: the URL where one is set,
    /// else the document where one is set, else nothing.
    pub fn initial_content(&self) -> (content: InitialContent)
        ensures
            match content {
                InitialContent::Url(url) => text_of(self.url) == Some(url@),
                InitialContent::Html(html) => self.url is None && text_of(self.html) == Some(
                    html@,
                ),
                InitialContent::Nothing => self.url is None && self.html is None,
            },
    {
        match &self.url {
            Some(url) => InitialContent::Url(url.clone()),
            None => match &self.html {
                Some(html) => InitialContent::Html(html.clone()),
                None => InitialContent::Nothing,
            },
        }
    }
}

/// Whether a result is the first load of a view with the given settings, or
/// its rejection: the URL where one is set, or else the document, with the
/// bridge. Each is checked as in any other load.
pub open spec fn initial_load(settings: WebViewSettings, r: Result<EngineCall, Error>) -> bool {
    match text_of(settings.url) {
        Some(url) => loads_url(url, r),
        None => match text_of(settings.html) {
            Some(html) => loads_html(html, None, true, r),
            None => false,
        },
    }
}

/// Whether the rendering backend was started.
#[derive(Debug, Clone, Copy, PartialEq, Eq, Structural)]
pub enum InitState {
    /// The start was not tried yet.
    Untried,
    /// The backend was started.
    Ready,
    /// The start was tried and failed.
    Failed,
}

/// The state after the outcome of a start was recorded: the first outcome
/// stands, and later ones change nothing.
pub open spec fn recorded(state: InitState, started: bool) -> InitState {
    match state {
        InitState::Untried => if started {
            InitState::Ready
        } else {
            InitState::Failed
        },
        _ => state,
    }
}

/// The guard of the backend's start. The backend is started at most once; the
/// guard keeps the outcome, and every later request is answered from it.
#[derive(Debug)]
pub struct InitGuard {
    state: InitState,
}

impl InitGuard {
    /// Whether the backend was started.
    pub closed spec fn state(self) -> InitState {
        self.state
    }

    /// A guard for a backend whose start was not tried yet.
    pub fn new() -> (guard: Self)
        ensures
            guard.state() == InitState::Untried,
    {
        InitGuard { state: InitState::Untried }
    }

    /// Whether the start is still to be tried.
    pub fn needs_start(&self) -> (needed: bool)
        ensures
            needed == (self.state() == InitState::Untried),
    {
        match self.state {
            InitState::Untried => true,
            _ => false,
        }
    }

    /// Record the outcome of a start, and answer the request that caused it.
    ///
    /// # Errors
    /// Returns `InitFailed` where the backend is not started: the first start
    /// failed, whatever is recorded later.
    pub fn record(&mut self, started: bool) -> (r: Result<(), Error>)
        ensures
            final(self).state() == recorded(old(self).state(), started),
            r is Ok == (final(self).state() == InitState::Ready),
            r matches Err(e) ==> e is InitFailed,
    {
        match self.state {
            InitState::Untried => {
                if started {
                    self.state = InitState::Ready;
                } else {
                    self.state = InitState::Failed;
                }
            },
            _ => {},
        }
        self.status()
    }

    /// Answer a request from what is recorded.
    ///
    /// # Errors
    /// Returns `InitFailed` where the backend is not started.
    pub fn status(&self) -> (r: Result<(), Error>)
        ensures
            r is Ok == (self.state() == InitState::Ready),
            r matches Err(e) ==> e is InitFailed,
    {
        match self.state {
            InitState::Ready => Ok(()),
            _ => Err(Error::InitFailed),
        }
    }
}

/// Starting twice is starting once: a second outcome changes nothing.
pub proof fn lemma_start_once(state: InitState, first: bool, second: bool)
    ensures
        recorded(recorded(state, first), second) == recorded(state, first),
{
}

/// Start the rendering backend, unless that was tried before.
///
/// `start` makes the attempt and says whether it succeeded. It is called only
/// where the guard has no outcome yet; the outcome is recorded, and every
/// later call is answered from the record.
///
/// # Errors
/// Returns `InitFailed` where the backend is not started.
pub fn initialize<F: FnOnce() -> bool>(guard: &mut InitGuard, start: F) -> (r: Result<(), Error>)
    requires
        call_requires(start, ()),
    ensures
        match old(guard).state() {
            InitState::Untried => exists|started: bool|
                call_ensures(start, (), started) && #[trigger] recorded(
                    InitState::Untried,
                    started,
                ) == final(guard).state(),
            state => final(guard).state() == state,
        },
        r is Ok == (final(guard).state() == InitState::Ready),
        r matches Err(e) ==> e is InitFailed,
{
    if guard.needs_start() {
        let started = start();
        guard.record(started)
    } else {
        guard.status()
    }
}

/// A WPE WebKit web view on the exporting backend, to be embedded in a host
/// window: its size, its settings and the handles that it holds.
///
/// The operations hand out the engine calls that the caller is to make. They
/// may be used as long as the view holds its web view, that is until its
/// teardown.
#[derive(Debug)]
pub struct WebView {
    width: u32,
    height: u32,
    settings: WebViewSettings,
    handles: HandleSet,
}

impl WebView {
    /// The width that the view was last given.
    pub closed spec fn spec_width(self) -> u32 {
        self.width
    }

    /// The height that the view was last given.
    pub closed spec fn spec_height(self) -> u32 {
        self.height
    }

    /// What the view holds of the engine.
    pub closed spec fn held(self) -> Handles {
        self.handles@
    }

    /// The settings that the view was created with.
    pub closed spec fn spec_settings(self) -> WebViewSettings {
        self.settings
    }

    /// Whether the view holds its web view, so that it can be operated.
    pub open spec fn live(self) -> bool {
        self.held().web_view
    }

    /// Make a view of a finished creation run.
    ///
    /// # Errors
    /// Where the run was given up, returns its fault as an error together
    /// with what is to be released.
    pub fn new(settings: WebViewSettings, setup: Setup) -> (r: Result<WebView, CreationFailure>)
        requires
            !(setup.phase() is Running),
        ensures
            match r {
                Ok(view) => {
                    &&& setup.phase() is Ready
                    &&& view.held() == setup.held()
                    &&& view.spec_settings() == settings
                    &&& view.spec_width() == DEFAULT_WIDTH
                    &&& view.spec_height() == DEFAULT_HEIGHT
                },
                Err(failure) => {
                    &&& setup.phase() matches Phase::Failed(fault)
                    &&& fault.reports(failure.error)
                    &&& failure.releases@ == setup.held().release_plan()
                },
            },
    {
        match setup.finish() {
            Ok(handles) => Ok(
                WebView { width: DEFAULT_WIDTH, height: DEFAULT_HEIGHT, settings, handles },
            ),
            Err((fault, releases)) => Err(CreationFailure { error: fault.to_error(), releases }),
        }
    }

    /// Whether the view holds its web view, so that it can be operated.
    pub fn is_live(&self) -> (live: bool)
        ensures
            live == self.live(),
    {
        self.handles.holds(Resource::WebView)
    }

    /// The settings that the view was created with.
    pub fn settings(&self) -> (settings: &WebViewSettings)
        ensures
            *settings == self.spec_settings(),
    {
        &self.settings
    }

    /// Load a URL in the web view.
    ///
    /// # Errors
    /// Returns `InvalidUrl` if the URL is empty or holds a zero byte.
    pub fn load_url(&mut self, url: &str) -> (r: Result<EngineCall, Error>)
        requires
            old(self).live(),
        ensures
            *final(self) == *old(self),
            loads_url(url@, r),
    {
        load_uri_call(url)
    }

    /// Load HTML content directly.
    ///
    /// # Errors
    /// Returns `InvalidUrl` if the document is empty or holds a zero byte, or
    /// if the base URL is empty or holds a zero byte.
    pub fn load_html(&mut self, html: &str, base_url: Option<&str>) -> (r: Result<
        EngineCall,
        Error,
    >)
        requires
            old(self).live(),
        ensures
            *final(self) == *old(self),
            loads_html(html@, base_url, false, r),
    {
        load_html_call(html, base_url, false)
    }

    /// Execute JavaScript in the web view.
    ///
    /// # Errors
    /// Returns `JavaScriptError` if the script holds a zero byte.
    pub fn evaluate_script(&self, script: &str) -> (r: Result<EngineCall, Error>)
        requires
            self.live(),
        ensures
            evaluates(script@, r),
    {
        evaluate_call(script)
    }

    /// Resize the web view: the view takes the size on, and the exporting
    /// backend is to be told. A zero dimension is raised to one, as the frame
    /// buffer raises it, so that the two never differ.
    pub fn resize(&mut self, width: u32, height: u32) -> (call: EngineCall)
        requires
            old(self).live(),
        ensures
            final(self).spec_width() == clamped(width),
            final(self).spec_height() == clamped(height),
            final(self).held() == old(self).held(),
            final(self).spec_settings() == old(self).spec_settings(),
            call == (EngineCall::BackendResized {
                columns: clamped(width),
                rows: clamped(height),
            }),
    {
        let columns = if width == 0 {
            1
        } else {
            width
        };
        let rows = if height == 0 {
            1
        } else {
            height
        };
        self.width = columns;
        self.height = rows;
        EngineCall::BackendResized { columns, rows }
    }

    /// Go back in history.
    pub fn go_back(&mut self) -> (call: EngineCall)
        requires
            old(self).live(),
        ensures
            *final(self) == *old(self),
            call == EngineCall::GoBack,
    {
        EngineCall::GoBack
    }

    /// Go forward in history.
    pub fn go_forward(&mut self) -> (call: EngineCall)
        requires
            old(self).live(),
        ensures
            *final(self) == *old(self),
            call == EngineCall::GoForward,
    {
        EngineCall::GoForward
    }

    /// Reload the current page.
    pub fn reload(&mut self) -> (call: EngineCall)
        requires
            old(self).live(),
        ensures
            *final(self) == *old(self),
            call == EngineCall::Reload,
    {
        EngineCall::Reload
    }

    /// Stop loading.
    pub fn stop(&mut self) -> (call: EngineCall)
        requires
            old(self).live(),
        ensures
            *final(self) == *old(self),
            call == EngineCall::StopLoading,
    {
        EngineCall::StopLoading
    }

    /// Render the web view: the frame that was exported is done with, and the
    /// next one may come.
    pub fn render(&mut self) -> (call: EngineCall)
        requires
            old(self).live(),
        ensures
            *final(self) == *old(self),
            call == EngineCall::FrameComplete,
    {
        EngineCall::FrameComplete
    }

    /// Get the current width.
    pub fn width(&self) -> (width: u32)
        ensures
            width == self.spec_width(),
    {
        self.width
    }

    /// Get the current height.
    pub fn height(&self) -> (height: u32)
        ensures
            height == self.spec_height(),
    {
        self.height
    }

    /// Tear the view down: it gives up its handles, and returns what the
    /// caller has to release, in order. A second teardown finds nothing.
    pub fn teardown(&mut self) -> (releases: Vec<Release>)
        ensures
            releases@ == old(self).held().release_plan(),
            final(self).held() == Handles::none(),
            !final(self).live(),
            final(self).spec_width() == old(self).spec_width(),
            final(self).spec_height() == old(self).spec_height(),
            final(self).spec_settings() == old(self).spec_settings(),
    {
        self.handles.teardown()
    }
}

} // verus!
