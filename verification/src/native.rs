//! What the engine reports of a page, and what the host asks of it.
//!
//! The engine raises signals; each signal's callback decodes what was raised
//! and appends one record to a queue, from which the host takes it on its next
//! poll. The other way round, a native window hands out the engine calls that
//! carry out what the host asks of it.

use crate::engine::{
    evaluate_call, evaluates, load_html_call, load_uri_call, loads_html, loads_url, send_call,
    sends, set_title_call, view_extent, view_resized_call, EngineCall,
};
use crate::error::Error;
use crate::input::{InputClock, InputEvent, Modifiers};
use crate::ipc::{
    decodes_frontend, frontend_defect, respond_all, responded, BackendMessage,
    BackendMessageView, DecodeError, FrontendMessage, IpcBridge,
};
use crate::json::json_parsed;
use crate::lifecycle::{CreationFailure, Handles, HandleSet, Phase, Release, Resource, Setup};
use crate::queue::{BindingState, EventQueue};
use crate::text::{has_nul, utf8_text};
use crate::webview::WebViewSettings;
use serde_json::Value;
use vstd::prelude::*;
use vstd::string::StringSliceAdditionalSpecFns;

verus! {

/// The engine's code for a load that was requested.
pub const LOAD_STARTED: u32 = 0;

/// The engine's code for a load that was redirected.
pub const LOAD_REDIRECTED: u32 = 1;

/// The engine's code for a load whose content began to arrive.
pub const LOAD_COMMITTED: u32 = 2;

/// The engine's code for a load that came to its end.
pub const LOAD_FINISHED: u32 = 3;

/// Navigation load state.
#[derive(Debug, Clone, Copy, PartialEq, Eq, Structural)]
pub enum LoadState {
    /// A new load request has been made.
    Started,
    /// A provisional data source received a server redirect.
    Redirected,
    /// The content started arriving for a page load.
    Committed,
    /// Load completed (or failed).
    Finished,
}

impl LoadState {
    /// The load state that a code of the engine stands for. A code that is
    /// not known stands for a load that started.
    pub open spec fn of_code(code: u32) -> LoadState {
        if code == LOAD_REDIRECTED {
            LoadState::Redirected
        } else if code == LOAD_COMMITTED {
            LoadState::Committed
        } else if code == LOAD_FINISHED {
            LoadState::Finished
        } else {
            LoadState::Started
        }
    }

    /// Convert from the engine's load event code.
    pub fn from_webkit(code: u32) -> (state: LoadState)
        ensures
            state == LoadState::of_code(code),
    {
        if code == LOAD_REDIRECTED {
            LoadState::Redirected
        } else if code == LOAD_COMMITTED {
            LoadState::Committed
        } else if code == LOAD_FINISHED {
            LoadState::Finished
        } else {
            LoadState::Started
        }
    }

    /// Whether a load in this state is still under way.
    pub open spec fn under_way(self) -> bool {
        self != LoadState::Finished
    }
}

/// Events emitted by the native window.
#[derive(Debug, Clone)]
pub enum NavigationEvent {
    /// Load state changed.
    LoadChanged(LoadState),
    /// Page title changed.
    TitleChanged(String),
    /// URL changed.
    UrlChanged(String),
    /// Load progress updated. The progress is the engine's estimate between
    /// zero and one, a double, kept as its bits.
    ProgressChanged(u64),
}

/// The load cycles of one view, as its load events tell them.
///
/// A cycle begins with each load that starts, whether or not the cycle before
/// came to its end, and its state is that of the latest load event.
#[derive(Debug)]
pub struct LoadTracker {
    cycles: u64,
    state: Option<LoadState>,
}

/// What a load tracker knows.
pub struct Loads {
    /// The number of cycles that began, which stops counting at its limit.
    pub cycles: u64,
    /// The state of the current cycle, if any load event was seen.
    pub state: Option<LoadState>,
}

impl Loads {
    /// What is known after one more load event.
    pub open spec fn observed(self, state: LoadState) -> Loads {
        Loads {
            cycles: if state == LoadState::Started && self.cycles < u64::MAX {
                (self.cycles + 1) as u64
            } else {
                self.cycles
            },
            state: Some(state),
        }
    }

    /// Whether a load is under way.
    pub open spec fn loading(self) -> bool {
        match self.state {
            Some(state) => state.under_way(),
            None => false,
        }
    }
}

impl View for LoadTracker {
    type V = Loads;

    closed spec fn view(&self) -> Loads {
        Loads { cycles: self.cycles, state: self.state }
    }
}

impl LoadTracker {
    /// A tracker that has seen no load event.
    pub fn new() -> (tracker: Self)
        ensures
            tracker@ == (Loads { cycles: 0, state: None }),
    {
        LoadTracker { cycles: 0, state: None }
    }

    /// Take in a load event.
    pub fn observe(&mut self, state: LoadState)
        ensures
            final(self)@ == old(self)@.observed(state),
    {
        match state {
            LoadState::Started => {
                if self.cycles < u64::MAX {
                    self.cycles = self.cycles + 1;
                }
            },
            _ => {},
        }
        self.state = Some(state);
    }

    /// The number of load cycles that began.
    pub fn cycles(&self) -> (cycles: u64)
        ensures
            cycles == self@.cycles,
    {
        self.cycles
    }

    /// The state of the current cycle, if any load event was seen.
    pub fn state(&self) -> (state: Option<LoadState>)
        ensures
            state == self@.state,
    {
        self.state
    }

    /// Whether a load is under way.
    pub fn is_loading(&self) -> (loading: bool)
        ensures
            loading == self@.loading(),
    {
        match self.state {
            Some(LoadState::Finished) => false,
            Some(_) => true,
            None => false,
        }
    }
}

/// What became of a message that a page script posted.
#[derive(Debug)]
pub enum Delivery {
    /// The message was decoded and stands in the queue.
    Queued,
    /// The bytes are not UTF-8. Nothing was queued.
    NotText,
    /// The text is no message. Nothing was queued.
    Malformed(DecodeError),
    /// The message was decoded, but no signal is bound to the queue. Nothing
    /// was queued.
    Unbound,
}

/// Whether a queue and an outcome are what the delivery of a text leads to.
///
/// A text that decodes to a message appends that message to a bound queue.
/// Every other text, and every text for a queue that is not bound, leaves the
/// queue as it was; the outcome says why.
pub open spec fn script_delivered(
    before: Seq<FrontendMessage>,
    binding: BindingState,
    text: Seq<char>,
    after: Seq<FrontendMessage>,
    outcome: Delivery,
) -> bool {
    match json_parsed(text) {
        None => after == before && outcome matches Delivery::Malformed(DecodeError::Syntax(_)),
        Some(v) => match frontend_defect(v) {
            Some(defect) => after == before && (outcome matches Delivery::Malformed(DecodeError::Envelope(d)) && d == defect),
            None => if binding == BindingState::Bound {
                &&& outcome is Queued
                &&& after.len() == before.len() + 1
                &&& after.subrange(0, before.len() as int) == before
                &&& decodes_frontend(v, after[before.len() as int]@)
            } else {
                after == before && outcome is Unbound
            },
        },
    }
}

/// Deliver the text that a page script posted: decode it, and append the
/// message to the queue. A text that is no message is dropped.
pub fn deliver_script_text(queue: &mut EventQueue<FrontendMessage>, text: &str) -> (outcome:
    Delivery)
    ensures
        final(queue).binding() == old(queue).binding(),
        script_delivered(old(queue).records(), old(queue).binding(), text@, final(queue).records(), outcome),
{
    match FrontendMessage::from_json(text) {
        Ok(message) => {
            let ghost before = queue.records();
            if queue.push(message) {
                proof {
                    assert(queue.records().subrange(0, before.len() as int) =~= before);
                }
                Delivery::Queued
            } else {
                Delivery::Unbound
            }
        },
        Err(cause) => Delivery::Malformed(cause),
    }
}

/// Deliver the bytes that a page script posted: read them as UTF-8, decode
/// the text, and append the message to the queue. Bytes that are no message
/// are dropped.
pub fn deliver_script_bytes(queue: &mut EventQueue<FrontendMessage>, bytes: &[u8]) -> (outcome:
    Delivery)
    ensures
        final(queue).binding() == old(queue).binding(),
        if vstd::utf8::valid_utf8(bytes@) {
            script_delivered(
                old(queue).records(),
                old(queue).binding(),
                vstd::utf8::decode_utf8(bytes@),
                final(queue).records(),
                outcome,
            )
        } else {
            final(queue).records() == old(queue).records() && outcome is NotText
        },
{
    match utf8_text(bytes) {
        Some(text) => {
            proof {
                vstd::utf8::encode_utf8_decode_utf8(text@);
            }
            deliver_script_text(queue, text)
        },
        None => Delivery::NotText,
    }
}

/// Deliver a load event: append the load state that the engine's code stands
/// for. Returns whether the queue took it.
pub fn deliver_load_event(queue: &mut EventQueue<NavigationEvent>, code: u32) -> (queued: bool)
    ensures
        queued == (old(queue).binding() == BindingState::Bound),
        final(queue).binding() == old(queue).binding(),
        final(queue).records() == if queued {
            old(queue).records().push(NavigationEvent::LoadChanged(LoadState::of_code(code)))
        } else {
            old(queue).records()
        },
{
    queue.push(NavigationEvent::LoadChanged(LoadState::from_webkit(code)))
}

/// Deliver a change of the page title. The engine may have no title to give,
/// and then nothing is appended. Returns whether the queue took an event.
pub fn deliver_title(queue: &mut EventQueue<NavigationEvent>, title: Option<String>) -> (queued:
    bool)
    ensures
        queued == (title is Some && old(queue).binding() == BindingState::Bound),
        final(queue).binding() == old(queue).binding(),
        final(queue).records() == if queued {
            old(queue).records().push(NavigationEvent::TitleChanged(title->0))
        } else {
            old(queue).records()
        },
{
    match title {
        Some(title) => queue.push(NavigationEvent::TitleChanged(title)),
        None => false,
    }
}

/// Deliver a change of the URL. The engine may have no URL to give, and then
/// nothing is appended. Returns whether the queue took an event.
pub fn deliver_uri(queue: &mut EventQueue<NavigationEvent>, uri: Option<String>) -> (queued: bool)
    ensures
        queued == (uri is Some && old(queue).binding() == BindingState::Bound),
        final(queue).binding() == old(queue).binding(),
        final(queue).records() == if queued {
            old(queue).records().push(NavigationEvent::UrlChanged(uri->0))
        } else {
            old(queue).records()
        },
{
    match uri {
        Some(uri) => queue.push(NavigationEvent::UrlChanged(uri)),
        None => false,
    }
}

/// Deliver a change of the load progress, given as the bits of the engine's
/// estimate. Returns whether the queue took it.
pub fn deliver_progress(queue: &mut EventQueue<NavigationEvent>, progress_bits: u64) -> (queued:
    bool)
    ensures
        queued == (old(queue).binding() == BindingState::Bound),
        final(queue).binding() == old(queue).binding(),
        final(queue).records() == if queued {
            old(queue).records().push(NavigationEvent::ProgressChanged(progress_bits))
        } else {
            old(queue).records()
        },
{
    queue.push(NavigationEvent::ProgressChanged(progress_bits))
}

/// A native WPE window that uses the engine's own window management: its
/// settings, its bridge, whether it was asked to close, and the handles that
/// it holds.
///
/// The operations hand out the engine calls that the caller is to make. They
/// may be used as long as the window holds its web view, that is until its
/// teardown.
#[derive(Debug)]
pub struct NativeWindow {
    settings: WebViewSettings,
    should_close: bool,
    ipc: IpcBridge,
    clock: InputClock,
    handles: HandleSet,
}

impl NativeWindow {
    /// What the window holds of the engine.
    pub closed spec fn held(self) -> Handles {
        self.handles@
    }

    /// The settings that the window was created with.
    pub closed spec fn spec_settings(self) -> WebViewSettings {
        self.settings
    }

    /// Whether the window was asked to close.
    pub closed spec fn closing(self) -> bool {
        self.should_close
    }

    /// The messages that wait in the window's bridge.
    pub closed spec fn pending(self) -> Seq<FrontendMessage> {
        self.ipc@
    }

    /// The latest timestamp that an input event of the window was given.
    pub closed spec fn last_stamp(self) -> u32 {
        self.clock.last()
    }

    /// Whether the window holds its web view, so that it can be operated.
    pub open spec fn live(self) -> bool {
        self.held().web_view
    }

    /// Make a window of a finished creation run, the last of the platform
    /// backends that could be tried.
    ///
    /// # Errors
    /// Where the run was given up, no backend is left: returns `NoDisplay`
    /// together with what is to be released.
    pub fn new(settings: WebViewSettings, setup: Setup) -> (r: Result<Self, CreationFailure>)
        requires
            !(setup.phase() is Running),
        ensures
            match r {
                Ok(window) => {
                    &&& setup.phase() is Ready
                    &&& window.held() == setup.held()
                    &&& window.spec_settings() == settings
                    &&& !window.closing()
                    &&& window.last_stamp() == 0
                    &&& window.pending() == Seq::<FrontendMessage>::empty()
                },
                Err(failure) => {
                    &&& setup.phase() is Failed
                    &&& failure.error is NoDisplay
                    &&& failure.releases@ == setup.held().release_plan()
                },
            },
    {
        match NativeWindow::new_wayland(settings, setup) {
            Ok(window) => Ok(window),
            Err(failure) => Err(
                CreationFailure { error: Error::NoDisplay, releases: failure.releases },
            ),
        }
    }

    /// Make a window of a finished creation run on the default display.
    ///
    /// # Errors
    /// Where the run was given up, returns its fault as an error together
    /// with what is to be released. `InitFailed` says that the display is not
    /// available, so that another backend may be tried.
    pub fn new_wayland(settings: WebViewSettings, setup: Setup) -> (r: Result<
        Self,
        CreationFailure,
    >)
        requires
            !(setup.phase() is Running),
        ensures
            match r {
                Ok(window) => {
                    &&& setup.phase() is Ready
                    &&& window.held() == setup.held()
                    &&& window.spec_settings() == settings
                    &&& !window.closing()
                    &&& window.last_stamp() == 0
                    &&& window.pending() == Seq::<FrontendMessage>::empty()
                },
                Err(failure) => {
                    &&& setup.phase() matches Phase::Failed(fault)
                    &&& fault.reports(failure.error)
                    &&& failure.releases@ == setup.held().release_plan()
                },
            },
    {
        match setup.finish() {
            Ok(handles) => Ok(
                NativeWindow {
                    settings,
                    should_close: false,
                    ipc: IpcBridge::new(),
                    clock: InputClock::new(),
                    handles,
                },
            ),
            Err((fault, releases)) => Err(CreationFailure { error: fault.to_error(), releases }),
        }
    }

    /// Whether the window holds its web view, so that it can be operated.
    pub fn is_live(&self) -> (live: bool)
        ensures
            live == self.live(),
    {
        self.handles.holds(Resource::WebView)
    }

    /// The settings that the window was created with.
    pub fn settings(&self) -> (settings: &WebViewSettings)
        ensures
            *settings == self.spec_settings(),
    {
        &self.settings
    }

    /// Load a URL in the web view.
    ///
    /// # Errors
    /// Returns `InvalidUrl` if the URL is empty or holds a zero byte.
    pub fn load_url(&mut self, url: &str) -> (r: Result<EngineCall, Error>)
        requires
            old(self).live(),
        ensures
            *final(self) == *old(self),
            loads_url(url@, r),
    {
        load_uri_call(url)
    }

    /// Load HTML content directly.
    ///
    /// # Errors
    /// Returns `InvalidUrl` if the document is empty or holds a zero byte, or
    /// if the base URL is empty or holds a zero byte.
    pub fn load_html(&mut self, html: &str, base_url: Option<&str>) -> (r: Result<
        EngineCall,
        Error,
    >)
        requires
            old(self).live(),
        ensures
            *final(self) == *old(self),
            loads_html(html@, base_url, false, r),
    {
        load_html_call(html, base_url, false)
    }

    /// Load HTML content with the IPC bridge automatically injected.
    ///
    /// # Errors
    /// Returns `InvalidUrl` if the document that the caller gives is empty, if
    /// the document holds a zero byte, or if the base URL is empty or holds a
    /// zero byte.
    pub fn load_html_with_ipc(&mut self, html: &str, base_url: Option<&str>) -> (r: Result<
        EngineCall,
        Error,
    >)
        requires
            old(self).live(),
        ensures
            *final(self) == *old(self),
            loads_html(html@, base_url, true, r),
    {
        load_html_call(html, base_url, true)
    }

    /// Execute JavaScript in the web view.
    ///
    /// # Errors
    /// Returns `JavaScriptError` if the script holds a zero byte.
    pub fn evaluate_script(&self, script: &str) -> (r: Result<EngineCall, Error>)
        requires
            self.live(),
        ensures
            evaluates(script@, r),
    {
        evaluate_call(script)
    }

    /// Send a message to the frontend JavaScript.
    ///
    /// # Errors
    /// Returns `Serialization` if the message cannot be encoded.
    pub fn send_message(&self, message: &BackendMessage) -> (r: Result<EngineCall, Error>)
        requires
            self.live(),
        ensures
            sends(message@, false, r),
    {
        send_call(message, false)
    }

    /// Send a notification of the given type and payload to the frontend.
    ///
    /// # Errors
    /// Returns `Serialization` if the message cannot be encoded.
    pub fn send_typed(&self, message_type: &str, payload: Value) -> (r: Result<EngineCall, Error>)
        requires
            self.live(),
        ensures
            sends(
                BackendMessageView {
                    message_type: message_type@,
                    payload: payload,
                    response_id: None,
                    result: None,
                    error: None,
                },
                false,
                r,
            ),
    {
        let message = BackendMessage::new(message_type, payload);
        send_call(&message, false)
    }

    /// Get a reference to the IPC bridge.
    #[must_use]
    pub fn ipc(&self) -> (bridge: &IpcBridge)
        ensures
            bridge@ == self.pending(),
    {
        &self.ipc
    }

    /// Get a mutable reference to the IPC bridge.
    #[must_use]
    pub fn ipc_mut(&mut self) -> (bridge: &mut IpcBridge)
        ensures
            bridge@ == old(self).pending(),
            final(self).pending() == final(bridge)@,
            final(self).held() == old(self).held(),
            final(self).closing() == old(self).closing(),
            final(self).last_stamp() == old(self).last_stamp(),
            final(self).spec_settings() == old(self).spec_settings(),
    {
        &mut self.ipc
    }

    /// Set the window title. A title that holds a zero byte is not set.
    pub fn set_title(&mut self, title: &str) -> (call: Option<EngineCall>)
        requires
            old(self).live(),
        ensures
            *final(self) == *old(self),
            match call {
                Some(c) => !has_nul(vstd::utf8::encode_utf8(title@)) && (c
                    matches EngineCall::SetTitle { title: t } && t@ == title@),
                None => has_nul(vstd::utf8::encode_utf8(title@)),
            },
    {
        set_title_call(title)
    }

    /// Resize the window. The view is never told a size of nothing: a zero
    /// dimension is given as one.
    pub fn resize(&mut self, width: u32, height: u32) -> (call: EngineCall)
        requires
            old(self).live(),
        ensures
            *final(self) == *old(self),
            call == (EngineCall::ViewResized {
                width: view_extent(width),
                height: view_extent(height),
            }),
    {
        view_resized_call(width, height)
    }

    /// Go back in history.
    pub fn go_back(&mut self) -> (call: EngineCall)
        requires
            old(self).live(),
        ensures
            *final(self) == *old(self),
            call == EngineCall::GoBack,
    {
        EngineCall::GoBack
    }

    /// Go forward in history.
    pub fn go_forward(&mut self) -> (call: EngineCall)
        requires
            old(self).live(),
        ensures
            *final(self) == *old(self),
            call == EngineCall::GoForward,
    {
        EngineCall::GoForward
    }

    /// Reload the current page.
    pub fn reload(&mut self) -> (call: EngineCall)
        requires
            old(self).live(),
        ensures
            *final(self) == *old(self),
            call == EngineCall::Reload,
    {
        EngineCall::Reload
    }

    /// Stop loading the current page.
    pub fn stop_loading(&mut self) -> (call: EngineCall)
        requires
            old(self).live(),
        ensures
            *final(self) == *old(self),
            call == EngineCall::StopLoading,
    {
        EngineCall::StopLoading
    }

    /// Give the view the input focus.
    pub fn focus(&mut self) -> (call: EngineCall)
        requires
            old(self).live(),
        ensures
            *final(self) == *old(self),
            call == EngineCall::FocusIn,
    {
        EngineCall::FocusIn
    }

    /// Take the input focus from the view.
    pub fn unfocus(&mut self) -> (call: EngineCall)
        requires
            old(self).live(),
        ensures
            *final(self) == *old(self),
            call == EngineCall::FocusOut,
    {
        EngineCall::FocusOut
    }

    /// Inject an input event that happens at the given clock reading, with
    /// the modifiers held.
    ///
    /// The event is put into the engine's terms one for one. Its timestamp is
    /// the reading, unless that lies before the timestamp of the event
    /// before: the timestamps of one window never decrease.
    pub fn inject_input(&mut self, event: InputEvent, modifiers: Modifiers, reading: u32) -> (call:
        EngineCall)
        requires
            old(self).live(),
        ensures
            final(self).held() == old(self).held(),
            final(self).closing() == old(self).closing(),
            final(self).pending() == old(self).pending(),
            final(self).spec_settings() == old(self).spec_settings(),
            final(self).last_stamp() >= old(self).last_stamp(),
            final(self).last_stamp() == if reading >= old(self).last_stamp() {
                reading
            } else {
                old(self).last_stamp()
            },
            call == EngineCall::Inject(event.engine_event(modifiers, final(self).last_stamp())),
    {
        let time = self.clock.stamp(reading);
        EngineCall::Inject(event.to_engine_event(modifiers, time))
    }

    /// Check if the window should close.
    #[must_use]
    pub fn should_close(&self) -> (closing: bool)
        ensures
            closing == self.closing(),
    {
        self.should_close
    }

    /// Request to close the window.
    pub fn close(&mut self)
        ensures
            final(self).closing(),
            final(self).held() == old(self).held(),
            final(self).pending() == old(self).pending(),
            final(self).last_stamp() == old(self).last_stamp(),
            final(self).spec_settings() == old(self).spec_settings(),
    {
        self.should_close = true;
    }

    /// After the pending events were processed: whether the window goes on.
    /// Returns false if the window should close.
    pub fn process_events(&mut self) -> (running: bool)
        ensures
            *final(self) == *old(self),
            running == !old(self).closing(),
    {
        !self.should_close
    }

    /// Receive all pending messages from JavaScript: those that were queued
    /// since the last call, oldest first.
    #[must_use]
    pub fn receive_messages(&mut self, queue: &mut EventQueue<FrontendMessage>) -> (messages: Vec<
        FrontendMessage,
    >)
        ensures
            *final(self) == *old(self),
            messages@ == old(queue).records(),
            final(queue).records() == Seq::<FrontendMessage>::empty(),
            final(queue).binding() == old(queue).binding(),
    {
        queue.drain()
    }

    /// Receive all pending navigation events: those that were queued since
    /// the last call, oldest first.
    #[must_use]
    pub fn receive_events(&mut self, queue: &mut EventQueue<NavigationEvent>) -> (events: Vec<
        NavigationEvent,
    >)
        ensures
            *final(self) == *old(self),
            events@ == old(queue).records(),
            final(queue).records() == Seq::<NavigationEvent>::empty(),
            final(queue).binding() == old(queue).binding(),
    {
        queue.drain()
    }

    /// Run a single iteration of the event loop with a message handler, after
    /// the pending events were processed.
    ///
    /// The handler is called for each queued message in turn. The replies
    /// answer, in order, the requests for which it returned a value; they are
    /// for the caller to send. The flag says whether the window goes on.
    pub fn step<F: Fn(&FrontendMessage) -> Option<Value>>(
        &mut self,
        queue: &mut EventQueue<FrontendMessage>,
        handler: F,
    ) -> (r: (Vec<BackendMessage>, bool))
        requires
            forall|i: int| 0 <= i < old(queue).records().len() ==> call_requires(handler, (&old(queue).records()[i],)),
        ensures
            *final(self) == *old(self),
            final(queue).records() == Seq::<FrontendMessage>::empty(),
            final(queue).binding() == old(queue).binding(),
            exists|outcomes: Seq<Option<Value>>| #[trigger]
                responded(handler, old(queue).records(), outcomes, r.0@),
            r.1 == !old(self).closing(),
    {
        let messages = queue.drain();
        let replies = respond_all(&messages, handler);
        let r = (replies, !self.should_close);
        proof {
            let outcomes = choose|outcomes: Seq<Option<Value>>| #[trigger]
                responded(handler, messages@, outcomes, replies@);
            assert(responded(handler, old(queue).records(), outcomes, r.0@));
        }
        r
    }

    /// Tear the window down.
    ///
    /// The queues are marked disconnected, so that they take nothing more,
    /// and the window gives up its handles. Returns what the caller has to
    /// release, in order: the signals are disconnected before a handle goes,
    /// and the queue storage is reclaimed last. A second teardown finds
    /// nothing left to release.
    pub fn teardown(
        &mut self,
        messages: &mut EventQueue<FrontendMessage>,
        events: &mut EventQueue<NavigationEvent>,
    ) -> (releases: Vec<Release>)
        ensures
            releases@ == old(self).held().release_plan(),
            final(self).held() == Handles::none(),
            !final(self).live(),
            final(self).closing() == old(self).closing(),
            final(self).pending() == old(self).pending(),
            final(self).last_stamp() == old(self).last_stamp(),
            final(self).spec_settings() == old(self).spec_settings(),
            final(messages).binding() == BindingState::Disconnected,
            final(events).binding() == BindingState::Disconnected,
            final(messages).records() == old(messages).records(),
            final(events).records() == old(events).records(),
    {
        messages.disconnect();
        events.disconnect();
        self.handles.teardown()
    }
}

} // verus!
