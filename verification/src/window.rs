//! What a host window's events mean for the view that it shows.

use crate::engine::EngineCall;
use crate::error::Error;
use crate::ipc::{FrontendMessage, IpcBridge};
use crate::lifecycle::CreationFailure;
use crate::renderer::{clamped, Frame, SoftwareRenderer};
use crate::webview::{initial_load, InitialContent, WebView, WebViewSettings};
use vstd::prelude::*;

verus! {

/// The colour that a window shows behind the page: dark grey.
pub const BACKGROUND: u32 = 0xFF2D_2D2D;

/// A custom event type for the host's event loop.
#[derive(Debug, Clone)]
pub enum WpeEvent {
    /// WPE needs to process events
    Wake,
    /// Request a redraw
    Redraw,
}

/// An event of the host window, as far as the view is concerned.
#[derive(Debug, Clone, Copy, PartialEq, Eq, Structural)]
pub enum WindowEvent {
    /// The user asked to close the window.
    CloseRequested,
    /// The window has a new size.
    Resized { width: u32, height: u32 },
    /// The window wants its contents drawn.
    RedrawRequested,
    /// Anything else.
    Other,
}

/// What the host does about an event.
#[derive(Debug, Clone, Copy, PartialEq, Eq, Structural)]
pub enum WindowAction {
    /// Leave the event loop.
    Exit,
    /// The web view and the frame buffer have taken on this size: tell the
    /// exporting backend and the presentation surface, before anything is
    /// presented again.
    Resize { width: u32, height: u32 },
    /// Let the engine work, ask it for the next frame, fill the frame buffer
    /// with the given colour, present it, and ask for the next redraw.
    Redraw { fill: u32 },
    /// Let the engine work.
    Spin,
    /// Ask the window to redraw itself.
    RequestRedraw,
    /// Nothing.
    Nothing,
}

/// What an event of the host window asks for.
pub open spec fn action_for(event: WindowEvent) -> WindowAction {
    match event {
        WindowEvent::CloseRequested => WindowAction::Exit,
        WindowEvent::Resized { width, height } => WindowAction::Resize {
            width: clamped(width),
            height: clamped(height),
        },
        WindowEvent::RedrawRequested => WindowAction::Redraw { fill: BACKGROUND },
        WindowEvent::Other => WindowAction::Nothing,
    }
}

/// Decide what to do about an event of the host window. A new size is taken
/// with a zero dimension raised to one.
pub fn window_action(event: WindowEvent) -> (action: WindowAction)
    ensures
        action == action_for(event),
        (action == WindowAction::Exit) == (event == WindowEvent::CloseRequested),
{
    match event {
        WindowEvent::CloseRequested => WindowAction::Exit,
        WindowEvent::Resized { width, height } => WindowAction::Resize {
            width: if width == 0 {
                1
            } else {
                width
            },
            height: if height == 0 {
                1
            } else {
                height
            },
        },
        WindowEvent::RedrawRequested => WindowAction::Redraw { fill: BACKGROUND },
        WindowEvent::Other => WindowAction::Nothing,
    }
}

/// Decide what to do about an event that was sent to the event loop: a wake
/// lets the engine work, and a redraw request is passed on to the window.
pub fn user_action(event: &WpeEvent) -> (action: WindowAction)
    ensures
        action == match *event {
            WpeEvent::Wake => WindowAction::Spin,
            WpeEvent::Redraw => WindowAction::RequestRedraw,
        },
{
    match event {
        WpeEvent::Wake => WindowAction::Spin,
        WpeEvent::Redraw => WindowAction::RequestRedraw,
    }
}

/// What a window is to do once it is initialized.
#[derive(Debug)]
pub struct Startup {
    /// The call that tells the exporting backend the size of the window.
    pub size: EngineCall,
    /// The call that loads the first content, if there is any.
    pub first: Option<EngineCall>,
}

/// A window containing a WPE WebView: the web view and the renderer, once the
/// host has a window for them, the bridge and the settings.
#[derive(Debug)]
pub struct WpeWindow {
    webview: Option<WebView>,
    renderer: Option<SoftwareRenderer>,
    ipc: IpcBridge,
    settings: WebViewSettings,
    ready: bool,
}

impl WpeWindow {
    /// The web view, once the window is initialized.
    pub closed spec fn spec_webview(self) -> Option<WebView> {
        self.webview
    }

    /// The renderer, once the window is initialized.
    pub closed spec fn spec_renderer(self) -> Option<SoftwareRenderer> {
        self.renderer
    }

    /// Whether the window is initialized.
    pub closed spec fn spec_ready(self) -> bool {
        self.ready
    }

    /// The settings of the window.
    pub closed spec fn spec_settings(self) -> WebViewSettings {
        self.settings
    }

    /// The messages that wait in the window's bridge.
    pub closed spec fn pending(self) -> Seq<FrontendMessage> {
        self.ipc@
    }

    /// Whether the window is well formed: a window that is ready has a live
    /// web view and a renderer, and its renderer is well formed.
    pub open spec fn wf(self) -> bool {
        &&& self.spec_ready() ==> self.spec_webview() is Some && self.spec_renderer() is Some
        &&& self.spec_webview() matches Some(view) ==> view.live()
        &&& self.spec_renderer() matches Some(renderer) ==> renderer.wf()
        &&& self.sizes_agree()
    }

    /// Whether the web view and the renderer have one size, where the window
    /// has both: nothing is ever presented at a size other than the web
    /// view's.
    pub open spec fn sizes_agree(self) -> bool {
        match (self.spec_webview(), self.spec_renderer()) {
            (Some(view), Some(renderer)) => view.spec_width() == renderer@.width
                && view.spec_height() == renderer@.height,
            _ => true,
        }
    }

    /// Whether the window takes a new size on: it does unless it has a
    /// renderer whose storage at that size this machine cannot address.
    pub open spec fn takes(self, width: u32, height: u32) -> bool {
        self.spec_renderer() is Some ==> clamped(width) * clamped(height) <= usize::MAX
    }

    /// Create a new WPE window with the given settings. It has neither web
    /// view nor renderer yet, and is not ready.
    #[must_use]
    pub fn new(settings: WebViewSettings) -> (window: Self)
        ensures
            window.wf(),
            window.spec_webview() is None,
            window.spec_renderer() is None,
            !window.spec_ready(),
            window.spec_settings() == settings,
            window.pending() == Seq::<FrontendMessage>::empty(),
    {
        WpeWindow { webview: None, renderer: None, ipc: IpcBridge::new(), settings, ready: false }
    }

    /// Get a mutable reference to the renderer.
    #[must_use]
    pub fn renderer_mut(&mut self) -> (renderer: Option<&mut SoftwareRenderer>)
        ensures
            match old(self).spec_renderer() {
                None => renderer is None && final(self).spec_renderer() is None,
                Some(r) => renderer is Some && *renderer.unwrap() == r && final(self).spec_renderer() == Some(*final(renderer.unwrap())),
            },
            final(self).spec_webview() == old(self).spec_webview(),
            final(self).spec_ready() == old(self).spec_ready(),
            final(self).spec_settings() == old(self).spec_settings(),
            final(self).pending() == old(self).pending(),
    {
        self.renderer.as_mut()
    }

    /// Get a reference to the webview.
    #[must_use]
    pub fn webview(&self) -> (view: Option<&WebView>)
        ensures
            match self.spec_webview() {
                None => view is None,
                Some(v) => view == Some(&v),
            },
    {
        self.webview.as_ref()
    }

    /// Get a mutable reference to the webview.
    #[must_use]
    pub fn webview_mut(&mut self) -> (view: Option<&mut WebView>)
        ensures
            match old(self).spec_webview() {
                None => view is None && final(self).spec_webview() is None,
                Some(v) => view is Some && *view.unwrap() == v && final(self).spec_webview()
                    == Some(*final(view.unwrap())),
            },
            final(self).spec_renderer() == old(self).spec_renderer(),
            final(self).spec_ready() == old(self).spec_ready(),
            final(self).spec_settings() == old(self).spec_settings(),
            final(self).pending() == old(self).pending(),
    {
        self.webview.as_mut()
    }

    /// Get a reference to the IPC bridge.
    #[must_use]
    pub fn ipc(&self) -> (bridge: &IpcBridge)
        ensures
            bridge@ == self.pending(),
    {
        &self.ipc
    }

    /// Get a mutable reference to the IPC bridge.
    #[must_use]
    pub fn ipc_mut(&mut self) -> (bridge: &mut IpcBridge)
        ensures
            bridge@ == old(self).pending(),
            final(self).pending() == final(bridge)@,
            final(self).spec_webview() == old(self).spec_webview(),
            final(self).spec_renderer() == old(self).spec_renderer(),
            final(self).spec_ready() == old(self).spec_ready(),
            final(self).spec_settings() == old(self).spec_settings(),
    {
        &mut self.ipc
    }

    /// Check if the webview is ready.
    #[must_use]
    pub fn is_ready(&self) -> (ready: bool)
        ensures
            ready == self.spec_ready(),
    {
        self.ready
    }

    /// Initialize the window with the renderer and the web view that the host
    /// made for it. The web view takes on the size of the renderer. Says what
    /// the host is to tell the engine: the size, and what is loaded first,
    /// which is the URL of the settings, or else their document, with the
    /// bridge.
    ///
    /// # Errors
    /// Where the first content is rejected, the window stays as it was, the
    /// web view is torn down, and the rejection is returned with what is to
    /// be released.
    pub fn initialize(&mut self, renderer: SoftwareRenderer, webview: WebView) -> (r: Result<
        Startup,
        CreationFailure,
    >)
        requires
            old(self).wf(),
            renderer.wf(),
            webview.live(),
        ensures
            final(self).wf(),
            final(self).spec_settings() == old(self).spec_settings(),
            final(self).pending() == old(self).pending(),
            match r {
                Ok(startup) => {
                    &&& final(self).spec_ready()
                    &&& final(self).spec_renderer() == Some(renderer)
                    &&& final(self).spec_webview() matches Some(view)
                    &&& view.held() == webview.held()
                    &&& view.spec_settings() == webview.spec_settings()
                    &&& view.spec_width() == renderer@.width
                    &&& view.spec_height() == renderer@.height
                    &&& startup.size == (EngineCall::BackendResized {
                        columns: renderer@.width,
                        rows: renderer@.height,
                    })
                    &&& match startup.first {
                        Some(call) => initial_load(old(self).spec_settings(), Ok(call)),
                        None => old(self).spec_settings().url is None && old(self).spec_settings().html is None,
                    }
                },
                Err(failure) => {
                    &&& final(self).spec_ready() == old(self).spec_ready()
                    &&& final(self).spec_renderer() == old(self).spec_renderer()
                    &&& final(self).spec_webview() == old(self).spec_webview()
                    &&& initial_load(old(self).spec_settings(), Err(failure.error))
                    &&& failure.releases@ == webview.held().release_plan()
                },
            },
    {
        let mut webview = webview;
        let loaded = match self.settings.initial_content() {
            InitialContent::Url(url) => Some(webview.load_url(url.as_str())),
            InitialContent::Html(html) => Some(
                crate::engine::load_html_call(html.as_str(), None, true),
            ),
            InitialContent::Nothing => None,
        };
        let first = match loaded {
            Some(Ok(call)) => Some(call),
            Some(Err(error)) => {
                let releases = webview.teardown();
                return Err(CreationFailure { error, releases });
            },
            None => None,
        };
        let size = webview.resize(renderer.width(), renderer.height());
        self.renderer = Some(renderer);
        self.webview = Some(webview);
        self.ready = true;
        Ok(Startup { size, first })
    }

    /// Handle a window event, and say what the host does about it.
    ///
    /// A new size is taken on at once by the renderer and the web view, where
    /// the window has them, with a zero dimension raised to one, so that the
    /// two have one size when the call returns. A size whose storage this
    /// machine cannot address is not taken on at all: renderer and web view
    /// stay as they are, and there is nothing for the host to do. Nothing
    /// else changes the window.
    pub fn handle_event(&mut self, event: WindowEvent) -> (action: WindowAction)
        requires
            old(self).wf(),
        ensures
            final(self).wf(),
            final(self).sizes_agree(),
            final(self).spec_ready() == old(self).spec_ready(),
            final(self).spec_settings() == old(self).spec_settings(),
            final(self).pending() == old(self).pending(),
            match event {
                WindowEvent::Resized { width, height } => {
                    &&& action == if old(self).takes(width, height) {
                        action_for(event)
                    } else {
                        WindowAction::Nothing
                    }
                    &&& match old(self).spec_webview() {
                        Some(before) => {
                            &&& final(self).spec_webview() matches Some(view)
                            &&& view.held() == before.held()
                            &&& view.spec_settings() == before.spec_settings()
                            &&& view.spec_width() == if old(self).takes(width, height) {
                                clamped(width)
                            } else {
                                before.spec_width()
                            }
                            &&& view.spec_height() == if old(self).takes(width, height) {
                                clamped(height)
                            } else {
                                before.spec_height()
                            }
                        },
                        None => final(self).spec_webview() is None,
                    }
                    &&& match old(self).spec_renderer() {
                        Some(before) => final(self).spec_renderer() matches Some(renderer)
                            && renderer@ == sized(before@, width, height),
                        None => final(self).spec_renderer() is None,
                    }
                },
                _ => {
                    &&& action == action_for(event)
                    &&& final(self).spec_webview() == old(self).spec_webview()
                    &&& final(self).spec_renderer() == old(self).spec_renderer()
                },
            },
    {
        match event {
            WindowEvent::Resized { width, height } => {
                let taken = match self.renderer.as_mut() {
                    Some(renderer) => renderer.try_resize(width, height),
                    None => true,
                };
                if taken {
                    match self.webview.as_mut() {
                        Some(view) => {
                            let _ = view.resize(width, height);
                        },
                        None => {},
                    }
                    window_action(event)
                } else {
                    WindowAction::Nothing
                }
            },
            _ => window_action(event),
        }
    }
}

/// A frame after the window took on a size: resized, unless this machine
/// cannot address the storage of that size.
pub open spec fn sized(frame: Frame, width: u32, height: u32) -> Frame {
    if clamped(width) * clamped(height) <= usize::MAX {
        frame.resized(width, height)
    } else {
        frame
    }
}

} // verus!
