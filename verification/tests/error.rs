use wpe::ipc::{DecodeError, FrontendMessage};
use wpe::text::{contains_text, decimal, describe_nul, find_nul};
use wpe::Error;

#[test]
fn errors_describe_themselves() {
    assert_eq!(Error::InitFailed.message(), "WPE initialization failed");
    assert_eq!(Error::WebViewCreationFailed.message(), "Failed to create web view");
    assert_eq!(Error::BackendCreationFailed.message(), "Failed to create backend");
    assert_eq!(Error::InvalidUrl("x y".to_string()).message(), "Invalid URL: x y");
    assert_eq!(
        Error::JavaScriptError("boom".to_string()).message(),
        "JavaScript evaluation failed: boom"
    );
    assert_eq!(Error::IpcError("lost".to_string()).message(), "IPC error: lost");
    assert_eq!(Error::WindowHandle.message(), "Window handle error");
    assert_eq!(
        Error::RendererCreationFailed("no surface".to_string()).message(),
        "Failed to create renderer: no surface"
    );
    assert_eq!(
        Error::RenderFailed("lost".to_string()).message(),
        "Failed to present frame: lost"
    );
    assert_eq!(Error::NoDisplay.message(), "No display available");
    assert_eq!(Error::X11Error("refused".to_string()).message(), "X11 error: refused");
}

#[test]
fn serialization_error_carries_its_cause() {
    let cause = match FrontendMessage::from_json("{") {
        Err(DecodeError::Syntax(cause)) => cause,
        other => panic!("unexpected result {:?}", other),
    };
    let words = cause.to_string();
    assert!(!words.is_empty());
    let error = Error::from(cause);
    assert!(matches!(error, Error::Serialization(_)));
    assert_eq!(error.message(), format!("Serialization error: {}", words));
}

#[test]
fn first_zero_byte_is_found() {
    assert_eq!(find_nul(b""), None);
    assert_eq!(find_nul(b"abc"), None);
    assert_eq!(find_nul(b"\0"), Some(0));
    assert_eq!(find_nul(b"ab\0cd\0"), Some(2));
    assert_eq!(find_nul(&[1, 2, 3, 0]), Some(3));
}

#[test]
fn text_is_searched_byte_for_byte() {
    assert!(contains_text("already connected", "already connected"));
    assert!(contains_text("display is already connected.", "already connected"));
    assert!(!contains_text("already  connected", "already connected"));
    assert!(!contains_text("connected", "already connected"));
    assert!(contains_text("abc", ""));
    assert!(contains_text("", ""));
    assert!(!contains_text("", "a"));
    assert!(contains_text("aab", "ab"));
    assert!(contains_text("x\u{00E9}y", "\u{00E9}"));
}

#[test]
fn numbers_are_written_in_decimal() {
    assert_eq!(decimal(0), "0");
    assert_eq!(decimal(7), "7");
    assert_eq!(decimal(10), "10");
    assert_eq!(decimal(1234567890), "1234567890");
    assert_eq!(decimal(usize::MAX), usize::MAX.to_string());
    assert_eq!(describe_nul(42), "nul byte found in provided data at position: 42");
}
