//! Platform-neutral input values and the engine's codes for them.

use std::time::Duration;
use std::time::SystemTime;
use vstd::prelude::*;

verus! {

/// Mouse button identifiers.
#[derive(Debug, Clone, Copy, PartialEq, Eq, Structural)]
pub enum MouseButton {
    Left,
    Middle,
    Right,
    Back,
    Forward,
    Other(u32),
}

impl MouseButton {
    /// The engine's button number of this button (numbered from one).
    pub open spec fn wpe_button(self) -> u32 {
        match self {
            MouseButton::Left => 1,
            MouseButton::Middle => 2,
            MouseButton::Right => 3,
            MouseButton::Back => 8,
            MouseButton::Forward => 9,
            MouseButton::Other(n) => n,
        }
    }

    /// Convert to the engine's button number.
    #[must_use]
    pub fn to_wpe_button(self) -> (n: u32)
        ensures
            n == self.wpe_button(),
    {
        match self {
            MouseButton::Left => 1,
            MouseButton::Middle => 2,
            MouseButton::Right => 3,
            MouseButton::Back => 8,
            MouseButton::Forward => 9,
            MouseButton::Other(n) => n,
        }
    }
}

/// The engine's flag for a held control key.
pub const MODIFIER_KEYBOARD_CONTROL: u32 = 0x01;

/// The engine's flag for a held shift key.
pub const MODIFIER_KEYBOARD_SHIFT: u32 = 0x02;

/// The engine's flag for a held alt key.
pub const MODIFIER_KEYBOARD_ALT: u32 = 0x04;

/// The engine's flag for a held meta key.
pub const MODIFIER_KEYBOARD_META: u32 = 0x08;

/// The engine's flag for an engaged caps lock.
pub const MODIFIER_KEYBOARD_CAPS_LOCK: u32 = 0x10;

/// Keyboard modifier flags.
#[derive(Debug, Clone, Copy)]
pub struct Modifiers {
    pub ctrl: bool,
    pub shift: bool,
    pub alt: bool,
    pub meta: bool,
    pub caps_lock: bool,
}

/// A flag where it is set, and nothing where it is not.
pub open spec fn flag(set: bool, bit: u32) -> u32 {
    if set {
        bit
    } else {
        0
    }
}

impl Modifiers {
    /// The engine's modifier bit set: the flags of the modifiers that are
    /// held, and no others.
    pub open spec fn wpe_modifiers(self) -> u32 {
        flag(self.ctrl, MODIFIER_KEYBOARD_CONTROL) | flag(self.shift, MODIFIER_KEYBOARD_SHIFT)
            | flag(self.alt, MODIFIER_KEYBOARD_ALT) | flag(self.meta, MODIFIER_KEYBOARD_META)
            | flag(self.caps_lock, MODIFIER_KEYBOARD_CAPS_LOCK)
    }

    /// Convert to the engine's modifier flags.
    #[must_use]
    pub fn to_wpe_modifiers(self) -> (flags: u32)
        ensures
            flags == self.wpe_modifiers(),
            (flags & MODIFIER_KEYBOARD_CONTROL != 0) == self.ctrl,
            (flags & MODIFIER_KEYBOARD_SHIFT != 0) == self.shift,
            (flags & MODIFIER_KEYBOARD_ALT != 0) == self.alt,
            (flags & MODIFIER_KEYBOARD_META != 0) == self.meta,
            (flags & MODIFIER_KEYBOARD_CAPS_LOCK != 0) == self.caps_lock,
            flags <= 0x1F,
    {
        let control = if self.ctrl {
            MODIFIER_KEYBOARD_CONTROL
        } else {
            0
        };
        let shift = if self.shift {
            MODIFIER_KEYBOARD_SHIFT
        } else {
            0
        };
        let alt = if self.alt {
            MODIFIER_KEYBOARD_ALT
        } else {
            0
        };
        let meta = if self.meta {
            MODIFIER_KEYBOARD_META
        } else {
            0
        };
        let caps_lock = if self.caps_lock {
            MODIFIER_KEYBOARD_CAPS_LOCK
        } else {
            0
        };
        let flags = control | shift | alt | meta | caps_lock;
        proof {
            lemma_modifier_bits(self);
        }
        flags
    }
}

/// Each modifier is read back from the bit set by its own flag.
pub proof fn lemma_modifier_bits(modifiers: Modifiers)
    ensures
        (modifiers.wpe_modifiers() & MODIFIER_KEYBOARD_CONTROL != 0) == modifiers.ctrl,
        (modifiers.wpe_modifiers() & MODIFIER_KEYBOARD_SHIFT != 0) == modifiers.shift,
        (modifiers.wpe_modifiers() & MODIFIER_KEYBOARD_ALT != 0) == modifiers.alt,
        (modifiers.wpe_modifiers() & MODIFIER_KEYBOARD_META != 0) == modifiers.meta,
        (modifiers.wpe_modifiers() & MODIFIER_KEYBOARD_CAPS_LOCK != 0) == modifiers.caps_lock,
        modifiers.wpe_modifiers() <= 0x1F,
{
    let c = flag(modifiers.ctrl, MODIFIER_KEYBOARD_CONTROL);
    let s = flag(modifiers.shift, MODIFIER_KEYBOARD_SHIFT);
    let a = flag(modifiers.alt, MODIFIER_KEYBOARD_ALT);
    let m = flag(modifiers.meta, MODIFIER_KEYBOARD_META);
    let l = flag(modifiers.caps_lock, MODIFIER_KEYBOARD_CAPS_LOCK);
    assert({
        let all = c | s | a | m | l;
        &&& (all & 0x01 != 0) == (c != 0)
        &&& (all & 0x02 != 0) == (s != 0)
        &&& (all & 0x04 != 0) == (a != 0)
        &&& (all & 0x08 != 0) == (m != 0)
        &&& (all & 0x10 != 0) == (l != 0)
        &&& all <= 0x1F
    }) by (bit_vector)
        requires
            c == 0 || c == 0x01,
            s == 0 || s == 0x02,
            a == 0 || a == 0x04,
            m == 0 || m == 0x08,
            l == 0 || l == 0x10,
    ;
}

impl Default for Modifiers {
    /// No modifier is held.
    fn default() -> (modifiers: Modifiers)
        ensures
            !modifiers.ctrl,
            !modifiers.shift,
            !modifiers.alt,
            !modifiers.meta,
            !modifiers.caps_lock,
    {
        Modifiers { ctrl: false, shift: false, alt: false, meta: false, caps_lock: false }
    }
}

/// `std::time::SystemTime`, opaque to the verifier.
#[verifier::external_type_specification]
#[verifier::external_body]
pub struct ExSystemTime(SystemTime);

/// What `SystemTime::duration_since` gives for a time and the Unix epoch: the
/// time elapsed since the epoch, or `None` where it reports that the time lies
/// before the epoch.
pub uninterp spec fn epoch_elapsed(time: SystemTime) -> Option<Duration>;

/// What `Duration::as_millis` gives: the whole milliseconds of a duration.
pub uninterp spec fn duration_millis(elapsed: Duration) -> u128;

/// `SystemTime::now`: the time of the call. Nothing is known of it.
#[verifier::external_body]
fn system_now() -> SystemTime {
    SystemTime::now()
}

/// `SystemTime::duration_since` with the Unix epoch: the time elapsed since
/// the epoch, or nothing where the time lies before it. The result is a
/// function of the time alone.
#[verifier::external_body]
fn since_epoch(time: &SystemTime) -> (elapsed: Option<Duration>)
    ensures
        elapsed == epoch_elapsed(*time),
{
    time.duration_since(std::time::UNIX_EPOCH).ok()
}

/// `Duration::as_millis`: the whole milliseconds of a duration. The result is
/// a function of the duration alone.
#[verifier::external_body]
fn whole_millis(elapsed: &Duration) -> (millis: u128)
    ensures
        millis == duration_millis(*elapsed),
{
    elapsed.as_millis()
}

/// A count of milliseconds as an engine timestamp: its lowest 32 bits.
pub open spec fn timestamp_of(millis: u128) -> u32 {
    (millis & 0xFFFF_FFFF) as u32
}

/// Reduce a count of milliseconds to an engine timestamp, which wraps around
/// after 2^32 milliseconds.
pub fn timestamp_from_millis(millis: u128) -> (timestamp: u32)
    ensures
        timestamp == timestamp_of(millis),
        timestamp == millis % 0x1_0000_0000,
{
    assert(millis & 0xFFFF_FFFF == millis % 0x1_0000_0000) by (bit_vector);
    assert(millis & 0xFFFF_FFFF <= 0xFFFF_FFFF) by (bit_vector);
    (millis & 0xFFFF_FFFF) as u32
}

/// The engine timestamp of a time: the whole milliseconds since the Unix
/// epoch, reduced to their lowest 32 bits, and zero for a time before the
/// epoch.
pub open spec fn timestamp_at(time: SystemTime) -> u32 {
    match epoch_elapsed(time) {
        Some(elapsed) => timestamp_of(duration_millis(elapsed)),
        None => 0,
    }
}

/// The engine timestamp of a time.
pub fn timestamp_of_time(time: &SystemTime) -> (timestamp: u32)
    ensures
        timestamp == timestamp_at(*time),
{
    match since_epoch(time) {
        Some(elapsed) => timestamp_from_millis(whole_millis(&elapsed)),
        None => 0,
    }
}

/// Get current timestamp in milliseconds: the engine timestamp of the time
/// that the clock shows, which is the milliseconds since the Unix epoch,
/// reduced to 32 bits, and zero where the clock stands before the epoch.
#[must_use]
pub fn current_time_ms() -> (timestamp: u32)
    ensures
        exists|time: SystemTime| timestamp == #[trigger] timestamp_at(time),
{
    let now = system_now();
    timestamp_of_time(&now)
}

/// The clock that stamps the input events of one view. Its stamps never
/// decrease, whatever the readings it is given.
#[derive(Debug)]
pub struct InputClock {
    last: u32,
}

impl InputClock {
    /// The latest stamp handed out, zero before the first.
    pub closed spec fn last(self) -> u32 {
        self.last
    }

    /// A clock that has stamped nothing yet.
    pub fn new() -> (clock: Self)
        ensures
            clock.last() == 0,
    {
        InputClock { last: 0 }
    }

    /// The stamp for an event that happens at the given reading: the reading
    /// itself, unless it lies before the latest stamp, which is then repeated.
    pub fn stamp(&mut self, reading: u32) -> (timestamp: u32)
        ensures
            timestamp == if reading >= old(self).last() {
                reading
            } else {
                old(self).last()
            },
            timestamp >= old(self).last(),
            final(self).last() == timestamp,
    {
        if reading >= self.last {
            self.last = reading;
        }
        self.last
    }
}

/// The engine's code for a mouse.
pub const INPUT_SOURCE_MOUSE: u32 = 0;

/// The engine's code for a pen.
pub const INPUT_SOURCE_PEN: u32 = 1;

/// The engine's code for a keyboard.
pub const INPUT_SOURCE_KEYBOARD: u32 = 2;

/// The engine's code for a touchscreen.
pub const INPUT_SOURCE_TOUCHSCREEN: u32 = 3;

/// The engine's code for a touchpad.
pub const INPUT_SOURCE_TOUCHPAD: u32 = 4;

/// Input source type.
#[derive(Debug, Clone, Copy, PartialEq, Eq, Structural)]
pub enum InputSource {
    Mouse,
    Touchpad,
    Touchscreen,
    Pen,
    Keyboard,
}

impl InputSource {
    /// The engine's code of this source.
    pub open spec fn wpe_source(self) -> u32 {
        match self {
            InputSource::Mouse => INPUT_SOURCE_MOUSE,
            InputSource::Touchpad => INPUT_SOURCE_TOUCHPAD,
            InputSource::Touchscreen => INPUT_SOURCE_TOUCHSCREEN,
            InputSource::Pen => INPUT_SOURCE_PEN,
            InputSource::Keyboard => INPUT_SOURCE_KEYBOARD,
        }
    }

    /// Convert to the engine's input source code.
    #[must_use]
    pub fn to_wpe_source(self) -> (code: u32)
        ensures
            code == self.wpe_source(),
    {
        match self {
            InputSource::Mouse => INPUT_SOURCE_MOUSE,
            InputSource::Touchpad => INPUT_SOURCE_TOUCHPAD,
            InputSource::Touchscreen => INPUT_SOURCE_TOUCHSCREEN,
            InputSource::Pen => INPUT_SOURCE_PEN,
            InputSource::Keyboard => INPUT_SOURCE_KEYBOARD,
        }
    }
}

/// The engine's code for a pressed pointer button.
pub const EVENT_POINTER_DOWN: u32 = 1;

/// The engine's code for a released pointer button.
pub const EVENT_POINTER_UP: u32 = 2;

/// The engine's code for a moved pointer.
pub const EVENT_POINTER_MOVE: u32 = 3;

/// The engine's code for a pressed key.
pub const EVENT_KEYBOARD_KEY_DOWN: u32 = 7;

/// The engine's code for a released key.
pub const EVENT_KEYBOARD_KEY_UP: u32 = 8;

/// An input event as the host's window system reports it.
#[derive(Debug, Clone, Copy, PartialEq, Eq, Structural)]
pub enum InputEvent {
    /// A key went down or up.
    Key { keycode: u32, pressed: bool },
    /// A pointer button went down or up at a position.
    Button { button: MouseButton, pressed: bool, x: i32, y: i32 },
    /// The pointer moved to a position.
    Motion { x: i32, y: i32 },
}

/// What an engine event says beyond its kind, source, time and modifiers.
#[derive(Debug, Clone, Copy, PartialEq, Eq, Structural)]
pub enum EngineEventDetail {
    /// A keyboard event: the hardware key code and the key value.
    Keyboard { keycode: u32, keyval: u32 },
    /// A pointer button event: the button, the position and the number of
    /// presses in a row.
    PointerButton { button: u32, x: i32, y: i32, press_count: u32 },
    /// A pointer motion event: the position. The movement since the previous
    /// event is not reported.
    PointerMove { x: i32, y: i32 },
}

/// An input event in the terms of the engine's call surface.
#[derive(Debug, Clone, Copy, PartialEq, Eq, Structural)]
pub struct EngineEvent {
    /// The engine's event type code.
    pub event_type: u32,
    /// The engine's input source code.
    pub source: u32,
    /// The timestamp in milliseconds.
    pub time: u32,
    /// The engine's modifier bit set.
    pub modifiers: u32,
    /// The rest.
    pub detail: EngineEventDetail,
}

impl InputEvent {
    /// The engine's event type code for this event.
    pub open spec fn event_type(self) -> u32 {
        match self {
            InputEvent::Key { pressed, .. } => if pressed {
                EVENT_KEYBOARD_KEY_DOWN
            } else {
                EVENT_KEYBOARD_KEY_UP
            },
            InputEvent::Button { pressed, .. } => if pressed {
                EVENT_POINTER_DOWN
            } else {
                EVENT_POINTER_UP
            },
            InputEvent::Motion { .. } => EVENT_POINTER_MOVE,
        }
    }

    /// The source that this event is attributed to: the keyboard for a key,
    /// the mouse for the pointer.
    pub open spec fn source(self) -> InputSource {
        match self {
            InputEvent::Key { .. } => InputSource::Keyboard,
            _ => InputSource::Mouse,
        }
    }

    /// What the engine is told of this event beyond kind, source, time and
    /// modifiers. A key's value is its code, and a button counts one press.
    pub open spec fn detail(self) -> EngineEventDetail {
        match self {
            InputEvent::Key { keycode, .. } => EngineEventDetail::Keyboard {
                keycode: keycode,
                keyval: keycode,
            },
            InputEvent::Button { button, x, y, .. } => EngineEventDetail::PointerButton {
                button: button.wpe_button(),
                x: x,
                y: y,
                press_count: 1,
            },
            InputEvent::Motion { x, y } => EngineEventDetail::PointerMove { x: x, y: y },
        }
    }

    /// The engine event that stands for this event, one for one.
    pub open spec fn engine_event(self, modifiers: Modifiers, time: u32) -> EngineEvent {
        EngineEvent {
            event_type: self.event_type(),
            source: self.source().wpe_source(),
            time: time,
            modifiers: modifiers.wpe_modifiers(),
            detail: self.detail(),
        }
    }

    /// Put this event into the engine's terms, with the modifiers held
    /// and the timestamp given.
    pub fn to_engine_event(self, modifiers: Modifiers, time: u32) -> (event: EngineEvent)
        ensures
            event == self.engine_event(modifiers, time),
    {
        let flags = modifiers.to_wpe_modifiers();
        match self {
            InputEvent::Key { keycode, pressed } => EngineEvent {
                event_type: if pressed {
                    EVENT_KEYBOARD_KEY_DOWN
                } else {
                    EVENT_KEYBOARD_KEY_UP
                },
                source: InputSource::Keyboard.to_wpe_source(),
                time,
                modifiers: flags,
                detail: EngineEventDetail::Keyboard { keycode, keyval: keycode },
            },
            InputEvent::Button { button, pressed, x, y } => EngineEvent {
                event_type: if pressed {
                    EVENT_POINTER_DOWN
                } else {
                    EVENT_POINTER_UP
                },
                source: InputSource::Mouse.to_wpe_source(),
                time,
                modifiers: flags,
                detail: EngineEventDetail::PointerButton {
                    button: button.to_wpe_button(),
                    x,
                    y,
                    press_count: 1,
                },
            },
            InputEvent::Motion { x, y } => EngineEvent {
                event_type: EVENT_POINTER_MOVE,
                source: InputSource::Mouse.to_wpe_source(),
                time,
                modifiers: flags,
                detail: EngineEventDetail::PointerMove { x, y },
            },
        }
    }
}

} // verus!
