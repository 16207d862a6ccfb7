//! What the events of an X11 window mean for the headless view behind it.

use crate::engine::{
    evaluate_call, evaluates, load_html_call, load_uri_call, loads_html, loads_url, send_call,
    sends, view_extent, view_resized_call, EngineCall,
};
use crate::error::Error;
use crate::input::{EngineEvent, InputClock, InputEvent, Modifiers, MouseButton};
use crate::ipc::{BackendMessage, FrontendMessage};
use crate::lifecycle::{
    CreationFailure, Handles, HandleSet, Phase, Release, Resource, Setup, DEFAULT_HEIGHT,
    DEFAULT_WIDTH,
};
use crate::queue::{BindingState, EventQueue};
use crate::renderer::{byte_of, clamped, Frame, SoftwareRenderer, CLEAR_COLOR};
use crate::webview::{initial_load, InitialContent, WebViewSettings};
use vstd::prelude::*;

verus! {

/// An event of the X11 window, as far as the view is concerned.
#[derive(Debug, Clone, Copy, PartialEq, Eq, Structural)]
pub enum X11Event {
    /// A part of the window has to be drawn again.
    Expose,
    /// The window was configured with this size.
    Configure { width: u16, height: u16 },
    /// A client message of this type, with this first data word.
    ClientMessage { message_type: u32, first: u32 },
    /// A key went down.
    KeyPress { keycode: u8 },
    /// A key went up.
    KeyRelease { keycode: u8 },
    /// A pointer button went down at a position.
    ButtonPress { button: u8, x: i16, y: i16 },
    /// A pointer button went up at a position.
    ButtonRelease { button: u8, x: i16, y: i16 },
    /// The pointer moved to a position.
    Motion { x: i16, y: i16 },
    /// Anything else.
    Other,
}

/// What the host does about an event.
#[derive(Debug, Clone, Copy, PartialEq, Eq, Structural)]
pub enum X11Action {
    /// Present the frame buffer.
    Present,
    /// Take on the new size, of which no dimension is zero: the frame buffer
    /// first, then the shared memory for presenting, then the engine's view.
    Resize { width: u32, height: u32 },
    /// Look up the window manager's atoms, and close the window if the
    /// message is its request to do so.
    CheckClose { message_type: u32, first: u32 },
    /// Hand the input event to the engine.
    Inject(InputEvent),
    /// Nothing.
    Nothing,
}

/// The button that an X11 button number stands for. X11 numbers its buttons
/// as the engine does.
pub open spec fn button_of(number: u32) -> MouseButton {
    if number == 1 {
        MouseButton::Left
    } else if number == 2 {
        MouseButton::Middle
    } else if number == 3 {
        MouseButton::Right
    } else if number == 8 {
        MouseButton::Back
    } else if number == 9 {
        MouseButton::Forward
    } else {
        MouseButton::Other(number)
    }
}

/// The button that an X11 button number stands for.
pub fn button_from_number(number: u32) -> (button: MouseButton)
    ensures
        button == button_of(number),
        button.wpe_button() == number,
{
    if number == 1 {
        MouseButton::Left
    } else if number == 2 {
        MouseButton::Middle
    } else if number == 3 {
        MouseButton::Right
    } else if number == 8 {
        MouseButton::Back
    } else if number == 9 {
        MouseButton::Forward
    } else {
        MouseButton::Other(number)
    }
}

/// What an event of the X11 window asks for, for a view of the given size.
pub open spec fn action_for(event: X11Event, width: u32, height: u32) -> X11Action {
    match event {
        X11Event::Expose => X11Action::Present,
        X11Event::Configure { width: w, height: h } => if clamped(w as u32) != width || clamped(
            h as u32,
        ) != height {
            X11Action::Resize { width: clamped(w as u32), height: clamped(h as u32) }
        } else {
            X11Action::Nothing
        },
        X11Event::ClientMessage { message_type, first } => X11Action::CheckClose {
            message_type: message_type,
            first: first,
        },
        X11Event::KeyPress { keycode } => X11Action::Inject(
            InputEvent::Key { keycode: keycode as u32, pressed: true },
        ),
        X11Event::KeyRelease { keycode } => X11Action::Inject(
            InputEvent::Key { keycode: keycode as u32, pressed: false },
        ),
        X11Event::ButtonPress { button, x, y } => X11Action::Inject(
            InputEvent::Button {
                button: button_of(button as u32),
                pressed: true,
                x: x as i32,
                y: y as i32,
            },
        ),
        X11Event::ButtonRelease { button, x, y } => X11Action::Inject(
            InputEvent::Button {
                button: button_of(button as u32),
                pressed: false,
                x: x as i32,
                y: y as i32,
            },
        ),
        X11Event::Motion { x, y } => X11Action::Inject(
            InputEvent::Motion { x: x as i32, y: y as i32 },
        ),
        X11Event::Other => X11Action::Nothing,
    }
}

/// Decide what to do about an event of the X11 window, for a view of the
/// given size. A configure event asks for a resize only where the size, with
/// a zero dimension raised to one, is a new one.
pub fn x11_action(event: X11Event, width: u32, height: u32) -> (action: X11Action)
    ensures
        action == action_for(event, width, height),
{
    match event {
        X11Event::Expose => X11Action::Present,
        X11Event::Configure { width: w, height: h } => {
            let w: u32 = if w == 0 {
                1
            } else {
                w as u32
            };
            let h: u32 = if h == 0 {
                1
            } else {
                h as u32
            };
            if w != width || h != height {
                X11Action::Resize { width: w, height: h }
            } else {
                X11Action::Nothing
            }
        },
        X11Event::ClientMessage { message_type, first } => X11Action::CheckClose {
            message_type,
            first,
        },
        X11Event::KeyPress { keycode } => X11Action::Inject(
            InputEvent::Key { keycode: keycode as u32, pressed: true },
        ),
        X11Event::KeyRelease { keycode } => X11Action::Inject(
            InputEvent::Key { keycode: keycode as u32, pressed: false },
        ),
        X11Event::ButtonPress { button, x, y } => X11Action::Inject(
            InputEvent::Button {
                button: button_from_number(button as u32),
                pressed: true,
                x: x as i32,
                y: y as i32,
            },
        ),
        X11Event::ButtonRelease { button, x, y } => X11Action::Inject(
            InputEvent::Button {
                button: button_from_number(button as u32),
                pressed: false,
                x: x as i32,
                y: y as i32,
            },
        ),
        X11Event::Motion { x, y } => X11Action::Inject(
            InputEvent::Motion { x: x as i32, y: y as i32 },
        ),
        X11Event::Other => X11Action::Nothing,
    }
}

/// Whether a client message is the window manager's request to close the
/// window: a message of the protocols type whose first word names the delete
/// protocol.
pub fn is_close_request(message_type: u32, first: u32, wm_protocols: u32, wm_delete: u32) -> (close:
    bool)
    ensures
        close == (message_type == wm_protocols && first == wm_delete),
{
    message_type == wm_protocols && first == wm_delete
}

/// The number of bytes of shared memory that presenting a frame of the given
/// size takes: four for each pixel.
pub fn shared_memory_size(width: u32, height: u32) -> (size: Option<usize>)
    ensures
        size == if 4 * (width * height) <= usize::MAX {
            Some((4 * (width * height)) as usize)
        } else {
            None
        },
{
    assert(0 <= width * height <= 0xFFFF_FFFF * 0xFFFF_FFFF) by (nonlinear_arith)
        requires
            0 <= width <= 0xFFFF_FFFF,
            0 <= height <= 0xFFFF_FFFF,
    ;
    let bytes: u128 = 4 * ((width as u128) * (height as u128));
    if bytes <= usize::MAX as u128 {
        Some(bytes as usize)
    } else {
        None
    }
}

/// What the host does about an event, once the window has taken it in.
#[derive(Debug, Clone, Copy, PartialEq, Eq, Structural)]
pub enum X11Step {
    /// Present the frame buffer.
    Present,
    /// The window has taken on the new size: make the shared memory anew for
    /// it, and tell the engine's view.
    Resized { width: u32, height: u32 },
    /// Look up the window manager's atoms, and report them with the message.
    CheckClose { message_type: u32, first: u32 },
    /// Hand the event to the engine's view.
    Inject(EngineEvent),
    /// Nothing.
    Nothing,
}

/// An X11 window with a headless view behind it: its size, its frame buffer,
/// the clock of its input events, whether it was asked to close, and the
/// handles that it holds.
#[derive(Debug)]
pub struct X11Window {
    width: u32,
    height: u32,
    pixels: SoftwareRenderer,
    should_close: bool,
    clock: InputClock,
    handles: HandleSet,
}

impl X11Window {
    /// The width of the window.
    pub closed spec fn spec_width(self) -> u32 {
        self.width
    }

    /// The height of the window.
    pub closed spec fn spec_height(self) -> u32 {
        self.height
    }

    /// The frame that the window presents.
    pub closed spec fn frame(self) -> Frame {
        self.pixels@
    }

    /// Whether the window was asked to close.
    pub closed spec fn closing(self) -> bool {
        self.should_close
    }

    /// The latest timestamp that an input event of the window was given.
    pub closed spec fn last_stamp(self) -> u32 {
        self.clock.last()
    }

    /// What the window holds of the engine.
    pub closed spec fn held(self) -> Handles {
        self.handles@
    }

    /// Whether the window holds its web view, so that it can be operated.
    pub open spec fn live(self) -> bool {
        self.held().web_view
    }

    /// Whether the window is well formed: its frame holds one pixel for each
    /// position of the window, and never none. So nothing is ever presented
    /// at a size other than the one that the engine's view was told.
    pub open spec fn wf(self) -> bool {
        &&& self.frame().wf()
        &&& self.frame().width == self.spec_width()
        &&& self.frame().height == self.spec_height()
    }

    /// Make a window of a finished creation run, and say what it loads first:
    /// the URL of its settings, or else their document, with the bridge.
    ///
    /// # Errors
    /// Where the run was given up, returns its fault as an error together
    /// with what is to be released. Where the first content is rejected, the
    /// window is torn down again, and the rejection is returned with what is
    /// to be released.
    pub fn new(settings: WebViewSettings, setup: Setup) -> (r: Result<
        (X11Window, Option<EngineCall>),
        CreationFailure,
    >)
        requires
            !(setup.phase() is Running),
        ensures
            match r {
                Ok((window, first)) => {
                    &&& setup.phase() is Ready
                    &&& window.wf()
                    &&& window.held() == setup.held()
                    &&& window.spec_width() == DEFAULT_WIDTH
                    &&& window.spec_height() == DEFAULT_HEIGHT
                    &&& window.frame() == clear_frame()
                    &&& window.last_stamp() == 0
                    &&& !window.closing()
                    &&& match first {
                        Some(call) => initial_load(settings, Ok(call)),
                        None => settings.url is None && settings.html is None,
                    }
                },
                Err(failure) => {
                    &&& failure.releases@ == setup.held().release_plan()
                    &&& match setup.phase() {
                        Phase::Failed(fault) => fault.reports(failure.error),
                        _ => initial_load(settings, Err(failure.error)),
                    }
                },
            },
    {
        let mut handles = match setup.finish() {
            Ok(handles) => handles,
            Err((fault, releases)) => {
                return Err(CreationFailure { error: fault.to_error(), releases });
            },
        };
        let first = match settings.initial_content() {
            InitialContent::Url(url) => Some(load_uri_call(url.as_str())),
            InitialContent::Html(html) => Some(load_html_call(html.as_str(), None, true)),
            InitialContent::Nothing => None,
        };
        let call = match first {
            Some(Ok(call)) => Some(call),
            Some(Err(error)) => {
                let releases = handles.teardown();
                return Err(CreationFailure { error, releases });
            },
            None => None,
        };
        let window = X11Window {
            width: DEFAULT_WIDTH,
            height: DEFAULT_HEIGHT,
            pixels: SoftwareRenderer::new(DEFAULT_WIDTH, DEFAULT_HEIGHT),
            should_close: false,
            clock: InputClock::new(),
            handles,
        };
        Ok((window, call))
    }

    /// Whether the window holds its web view, so that it can be operated.
    pub fn is_live(&self) -> (live: bool)
        ensures
            live == self.live(),
    {
        self.handles.holds(Resource::WebView)
    }

    /// Load a URL.
    ///
    /// # Errors
    /// Returns `InvalidUrl` if the URL is empty or holds a zero byte.
    pub fn load_url(&mut self, url: &str) -> (r: Result<EngineCall, Error>)
        requires
            old(self).live(),
        ensures
            *final(self) == *old(self),
            loads_url(url@, r),
    {
        load_uri_call(url)
    }

    /// Load HTML content, with the bridge code added.
    ///
    /// # Errors
    /// Returns `InvalidUrl` if the document that the caller gives is empty, if
    /// the document holds a zero byte, or if the base URL is empty or holds a
    /// zero byte.
    pub fn load_html(&mut self, html: &str, base_url: Option<&str>) -> (r: Result<
        EngineCall,
        Error,
    >)
        requires
            old(self).live(),
        ensures
            *final(self) == *old(self),
            loads_html(html@, base_url, true, r),
    {
        load_html_call(html, base_url, true)
    }

    /// Take in an event of the X11 window that happens at the given clock
    /// reading, and say what the host does about it.
    ///
    /// A new size is taken on at once, frame buffer included. An input event
    /// is put into the engine's terms, with no modifiers held and a timestamp
    /// that is never earlier than that of the event before.
    pub fn handle_event(&mut self, event: X11Event, reading: u32) -> (step: X11Step)
        requires
            old(self).wf(),
        ensures
            final(self).wf(),
            final(self).held() == old(self).held(),
            final(self).closing() == old(self).closing(),
            match action_for(event, old(self).spec_width(), old(self).spec_height()) {
                X11Action::Present => step == X11Step::Present && unchanged(*old(self), *final(self)),
                X11Action::Resize { width, height } => {
                    &&& step == X11Step::Resized { width: clamped(width), height: clamped(height) }
                    &&& final(self).spec_width() == clamped(width)
                    &&& final(self).spec_height() == clamped(height)
                    &&& final(self).frame() == old(self).frame().resized(width, height)
                    &&& final(self).last_stamp() == old(self).last_stamp()
                },
                X11Action::CheckClose { message_type, first } => step == X11Step::CheckClose {
                    message_type: message_type,
                    first: first,
                } && unchanged(*old(self), *final(self)),
                X11Action::Inject(input) => {
                    &&& step == X11Step::Inject(
                        input.engine_event(no_modifiers(), final(self).last_stamp()),
                    )
                    &&& final(self).last_stamp() == later(old(self).last_stamp(), reading)
                    &&& final(self).spec_width() == old(self).spec_width()
                    &&& final(self).spec_height() == old(self).spec_height()
                    &&& final(self).frame() == old(self).frame()
                },
                X11Action::Nothing => step == X11Step::Nothing && unchanged(*old(self), *final(self)),
            },
    {
        match x11_action(event, self.width, self.height) {
            X11Action::Present => X11Step::Present,
            X11Action::Resize { width, height } => {
                proof {
                    assert(clamped(width) * clamped(height) <= 0xFFFF * 0xFFFF) by (nonlinear_arith)
                        requires
                            1 <= clamped(width) <= 0xFFFF,
                            1 <= clamped(height) <= 0xFFFF,
                    ;
                }
                self.pixels.resize(width, height);
                self.width = self.pixels.width();
                self.height = self.pixels.height();
                X11Step::Resized { width: self.width, height: self.height }
            },
            X11Action::CheckClose { message_type, first } => X11Step::CheckClose {
                message_type,
                first,
            },
            X11Action::Inject(input) => {
                let time = self.clock.stamp(reading);
                X11Step::Inject(
                    input.to_engine_event(
                        Modifiers {
                            ctrl: false,
                            shift: false,
                            alt: false,
                            meta: false,
                            caps_lock: false,
                        },
                        time,
                    ),
                )
            },
            X11Action::Nothing => X11Step::Nothing,
        }
    }

    /// Take in the window manager's atoms for a client message: where the
    /// message is the request to close the window, the window is closing from
    /// now on. Returns whether it was that request.
    pub fn check_close(
        &mut self,
        message_type: u32,
        first: u32,
        wm_protocols: u32,
        wm_delete: u32,
    ) -> (close: bool)
        ensures
            close == (message_type == wm_protocols && first == wm_delete),
            final(self).closing() == (old(self).closing() || close),
            final(self).wf() == old(self).wf(),
            final(self).held() == old(self).held(),
            final(self).frame() == old(self).frame(),
            final(self).spec_width() == old(self).spec_width(),
            final(self).spec_height() == old(self).spec_height(),
            final(self).last_stamp() == old(self).last_stamp(),
    {
        let close = is_close_request(message_type, first, wm_protocols, wm_delete);
        if close {
            self.should_close = true;
        }
        close
    }

    /// After the events were processed: whether the window goes on. Returns
    /// false if the window should close.
    pub fn process_events(&mut self) -> (running: bool)
        ensures
            *final(self) == *old(self),
            running == !old(self).closing(),
    {
        !self.should_close
    }

    /// Copy an exported buffer of the engine into the frame buffer, clipped to
    /// the smaller of the two sizes.
    pub fn copy_frame(&mut self, src: &[u8], src_width: u32, src_height: u32, stride: u32)
        requires
            old(self).wf(),
        ensures
            final(self).wf(),
            final(self).held() == old(self).held(),
            final(self).closing() == old(self).closing(),
            final(self).spec_width() == old(self).spec_width(),
            final(self).spec_height() == old(self).spec_height(),
            final(self).last_stamp() == old(self).last_stamp(),
            old(self).frame().copied(src@, src_width, src_height, stride, final(self).frame()),
    {
        self.pixels.copy_shm_buffer(src, src_width, src_height, stride);
    }

    /// The bytes to present: the frame, four bytes for each pixel with the
    /// lowest first, cut off after `limit` bytes, which is the room that the
    /// shared memory has.
    pub fn present(&self, limit: usize) -> (bytes: Vec<u8>)
        requires
            self.wf(),
        ensures
            bytes@.len() == if limit <= 4 * self.frame().pixels.len() {
                limit as int
            } else {
                (4 * self.frame().pixels.len()) as int
            },
            forall|k: int| 0 <= k < bytes@.len() ==> #[trigger] bytes@[k] == byte_of(
                self.frame().pixels[k / 4],
                k % 4,
            ),
    {
        self.pixels.to_bytes(limit)
    }

    /// Get the current width.
    pub fn width(&self) -> (width: u32)
        ensures
            width == self.spec_width(),
    {
        self.width
    }

    /// Get the current height.
    pub fn height(&self) -> (height: u32)
        ensures
            height == self.spec_height(),
    {
        self.height
    }

    /// Send a message to JavaScript, if the page has its receiver.
    ///
    /// # Errors
    /// Returns `JavaScriptError` if the message cannot be encoded.
    pub fn send(&self, message: &BackendMessage) -> (r: Result<EngineCall, Error>)
        requires
            self.live(),
        ensures
            sends(message@, true, r),
    {
        send_call(message, true)
    }

    /// Execute JavaScript.
    ///
    /// # Errors
    /// Returns `JavaScriptError` if the script holds a zero byte.
    pub fn evaluate_script(&self, script: &str) -> (r: Result<EngineCall, Error>)
        requires
            self.live(),
        ensures
            evaluates(script@, r),
    {
        evaluate_call(script)
    }

    /// Receive pending messages from JavaScript: those that were queued since
    /// the last call, oldest first.
    pub fn receive_messages(&mut self, queue: &mut EventQueue<FrontendMessage>) -> (messages: Vec<
        FrontendMessage,
    >)
        ensures
            *final(self) == *old(self),
            messages@ == old(queue).records(),
            final(queue).records() == Seq::<FrontendMessage>::empty(),
            final(queue).binding() == old(queue).binding(),
    {
        queue.drain()
    }

    /// Tear the window down.
    ///
    /// The queue is marked disconnected, so that it takes nothing more, and
    /// the window gives up its handles. Returns what the caller has to
    /// release, in order. A second teardown finds nothing left to release.
    pub fn teardown(&mut self, messages: &mut EventQueue<FrontendMessage>) -> (releases: Vec<
        Release,
    >)
        ensures
            releases@ == old(self).held().release_plan(),
            final(self).held() == Handles::none(),
            !final(self).live(),
            final(self).wf() == old(self).wf(),
            final(messages).binding() == BindingState::Disconnected,
            final(messages).records() == old(messages).records(),
    {
        messages.disconnect();
        self.handles.teardown()
    }
}

/// The frame of a window that nothing was drawn to yet: the clear colour at
/// the default size.
pub open spec fn clear_frame() -> Frame {
    Frame {
        pixels: Seq::new((DEFAULT_WIDTH * DEFAULT_HEIGHT) as nat, |i: int| CLEAR_COLOR),
        width: DEFAULT_WIDTH,
        height: DEFAULT_HEIGHT,
        dirty: false,
    }
}

/// No modifier held.
pub open spec fn no_modifiers() -> Modifiers {
    Modifiers { ctrl: false, shift: false, alt: false, meta: false, caps_lock: false }
}

/// The later of the latest stamp and a reading.
pub open spec fn later(last: u32, reading: u32) -> u32 {
    if reading >= last {
        reading
    } else {
        last
    }
}

/// Whether nothing that is told of a window has changed.
pub open spec fn unchanged(before: X11Window, after: X11Window) -> bool {
    &&& after.spec_width() == before.spec_width()
    &&& after.spec_height() == before.spec_height()
    &&& after.frame() == before.frame()
    &&& after.closing() == before.closing()
    &&& after.last_stamp() == before.last_stamp()
    &&& after.held() == before.held()
}

} // verus!
