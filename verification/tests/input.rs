use wpe::input::{
    current_time_ms, timestamp_from_millis, EngineEvent, EngineEventDetail, InputClock, InputEvent,
    InputSource, Modifiers, MouseButton, EVENT_KEYBOARD_KEY_DOWN, EVENT_KEYBOARD_KEY_UP,
    EVENT_POINTER_DOWN, EVENT_POINTER_MOVE, EVENT_POINTER_UP, INPUT_SOURCE_KEYBOARD,
    INPUT_SOURCE_MOUSE, INPUT_SOURCE_TOUCHPAD, MODIFIER_KEYBOARD_ALT, MODIFIER_KEYBOARD_CAPS_LOCK,
    MODIFIER_KEYBOARD_CONTROL, MODIFIER_KEYBOARD_META, MODIFIER_KEYBOARD_SHIFT,
};

#[test]
fn test_mouse_button_to_wpe() {
    assert_eq!(MouseButton::Left.to_wpe_button(), 1);
    assert_eq!(MouseButton::Middle.to_wpe_button(), 2);
    assert_eq!(MouseButton::Right.to_wpe_button(), 3);
    assert_eq!(MouseButton::Back.to_wpe_button(), 8);
    assert_eq!(MouseButton::Forward.to_wpe_button(), 9);
    assert_eq!(MouseButton::Other(42).to_wpe_button(), 42);
}

#[test]
fn test_modifiers_to_wpe() {
    let mods = Modifiers {
        ctrl: true,
        shift: true,
        alt: false,
        meta: false,
        caps_lock: false,
    };
    let wpe_mods = mods.to_wpe_modifiers();
    assert!(wpe_mods & MODIFIER_KEYBOARD_CONTROL != 0);
    assert!(wpe_mods & MODIFIER_KEYBOARD_SHIFT != 0);
    assert!(wpe_mods & MODIFIER_KEYBOARD_ALT == 0);
}

#[test]
fn test_modifiers_default() {
    let mods = Modifiers::default();
    assert!(!mods.ctrl);
    assert!(!mods.shift);
    assert!(!mods.alt);
    assert!(!mods.meta);
    assert!(!mods.caps_lock);
    assert_eq!(mods.to_wpe_modifiers(), 0);
}

#[test]
fn test_current_time_ms() {
    let time1 = current_time_ms();
    let time2 = current_time_ms();
    // Time should advance (allowing for some tolerance)
    assert!(time2 >= time1);
}

#[test]
fn test_input_source_to_wpe() {
    assert_eq!(InputSource::Mouse.to_wpe_source(), INPUT_SOURCE_MOUSE);
    assert_eq!(InputSource::Keyboard.to_wpe_source(), INPUT_SOURCE_KEYBOARD);
    assert_eq!(InputSource::Touchpad.to_wpe_source(), INPUT_SOURCE_TOUCHPAD);
}

#[test]
fn input_source_codes_are_distinct() {
    let codes = [
        InputSource::Mouse.to_wpe_source(),
        InputSource::Pen.to_wpe_source(),
        InputSource::Keyboard.to_wpe_source(),
        InputSource::Touchscreen.to_wpe_source(),
        InputSource::Touchpad.to_wpe_source(),
    ];
    assert_eq!(codes, [0, 1, 2, 3, 4]);
}

#[test]
fn modifiers_all_set_is_every_flag() {
    let mods = Modifiers { ctrl: true, shift: true, alt: true, meta: true, caps_lock: true };
    assert_eq!(mods.to_wpe_modifiers(), 0x1F);
    assert_eq!(
        MODIFIER_KEYBOARD_CONTROL
            | MODIFIER_KEYBOARD_SHIFT
            | MODIFIER_KEYBOARD_ALT
            | MODIFIER_KEYBOARD_META
            | MODIFIER_KEYBOARD_CAPS_LOCK,
        0x1F
    );
}

#[test]
fn modifiers_single_flags() {
    let none = Modifiers::default();
    assert_eq!(Modifiers { alt: true, ..none }.to_wpe_modifiers(), 4);
    assert_eq!(Modifiers { meta: true, ..none }.to_wpe_modifiers(), 8);
    assert_eq!(Modifiers { caps_lock: true, ..none }.to_wpe_modifiers(), 16);
    assert_eq!(Modifiers { ctrl: true, caps_lock: true, ..none }.to_wpe_modifiers(), 17);
}

#[test]
fn timestamp_keeps_the_low_32_bits() {
    assert_eq!(timestamp_from_millis(0), 0);
    assert_eq!(timestamp_from_millis(1234), 1234);
    assert_eq!(timestamp_from_millis(0xFFFF_FFFF), 0xFFFF_FFFF);
    assert_eq!(timestamp_from_millis(0x1_0000_0000), 0);
    assert_eq!(timestamp_from_millis(0x1_0000_0005), 5);
    assert_eq!(timestamp_from_millis(1_700_000_000_000), 3_487_918_080);
}

#[test]
fn input_clock_never_goes_back() {
    let mut clock = InputClock::new();
    assert_eq!(clock.stamp(100), 100);
    assert_eq!(clock.stamp(250), 250);
    assert_eq!(clock.stamp(200), 250);
    assert_eq!(clock.stamp(250), 250);
    assert_eq!(clock.stamp(0), 250);
    assert_eq!(clock.stamp(251), 251);
}

#[test]
fn key_events_convert_one_for_one() {
    let none = Modifiers::default();
    let down = InputEvent::Key { keycode: 38, pressed: true }.to_engine_event(none, 77);
    assert_eq!(
        down,
        EngineEvent {
            event_type: EVENT_KEYBOARD_KEY_DOWN,
            source: INPUT_SOURCE_KEYBOARD,
            time: 77,
            modifiers: 0,
            detail: EngineEventDetail::Keyboard { keycode: 38, keyval: 38 },
        }
    );
    let up = InputEvent::Key { keycode: 38, pressed: false }.to_engine_event(none, 78);
    assert_eq!(up.event_type, EVENT_KEYBOARD_KEY_UP);
    assert_eq!(up.time, 78);
}

#[test]
fn pointer_events_convert_one_for_one() {
    let mods = Modifiers { shift: true, ..Modifiers::default() };
    let press = InputEvent::Button { button: MouseButton::Right, pressed: true, x: 10, y: -3 }
        .to_engine_event(mods, 5);
    assert_eq!(
        press,
        EngineEvent {
            event_type: EVENT_POINTER_DOWN,
            source: INPUT_SOURCE_MOUSE,
            time: 5,
            modifiers: 2,
            detail: EngineEventDetail::PointerButton { button: 3, x: 10, y: -3, press_count: 1 },
        }
    );
    let release = InputEvent::Button { button: MouseButton::Other(7), pressed: false, x: 0, y: 0 }
        .to_engine_event(mods, 6);
    assert_eq!(release.event_type, EVENT_POINTER_UP);
    assert_eq!(
        release.detail,
        EngineEventDetail::PointerButton { button: 7, x: 0, y: 0, press_count: 1 }
    );
    let motion = InputEvent::Motion { x: 640, y: 360 }.to_engine_event(Modifiers::default(), 9);
    assert_eq!(motion.event_type, EVENT_POINTER_MOVE);
    assert_eq!(motion.source, INPUT_SOURCE_MOUSE);
    assert_eq!(motion.detail, EngineEventDetail::PointerMove { x: 640, y: 360 });
}

#[test]
fn timestamp_of_a_time_counts_from_the_epoch() {
    let epoch = std::time::UNIX_EPOCH;
    assert_eq!(wpe::input::timestamp_of_time(&epoch), 0);
    let later = epoch + std::time::Duration::from_millis(1234);
    assert_eq!(wpe::input::timestamp_of_time(&later), 1234);
    // parts of a millisecond do not count
    let later = epoch + std::time::Duration::from_micros(5_999);
    assert_eq!(wpe::input::timestamp_of_time(&later), 5);
    // the timestamp wraps around after 2^32 milliseconds
    let later = epoch + std::time::Duration::from_millis(0x1_0000_0007);
    assert_eq!(wpe::input::timestamp_of_time(&later), 7);
    let later = epoch + std::time::Duration::from_millis(1_700_000_000_000);
    assert_eq!(wpe::input::timestamp_of_time(&later), 3_487_918_080);
}

#[test]
fn timestamp_of_a_time_before_the_epoch_is_zero() {
    let earlier = std::time::UNIX_EPOCH - std::time::Duration::from_millis(1);
    assert_eq!(wpe::input::timestamp_of_time(&earlier), 0);
    let earlier = std::time::UNIX_EPOCH - std::time::Duration::from_secs(86_400);
    assert_eq!(wpe::input::timestamp_of_time(&earlier), 0);
}
