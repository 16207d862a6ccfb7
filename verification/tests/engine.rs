use serde_json::Value;
use wpe::engine::{
    check_url, evaluate_call, load_html_call, load_uri_call, send_call, set_title_call,
    view_resized_call,
    EngineCall,
};
use wpe::ipc::{BackendMessage, JS_BRIDGE};
use wpe::Error;

#[test]
fn url_is_loaded_as_given() {
    assert_eq!(
        load_uri_call("https://example.com").unwrap(),
        EngineCall::LoadUri { uri: "https://example.com".to_string() }
    );
    assert_eq!(
        load_uri_call("about:blank").unwrap(),
        EngineCall::LoadUri { uri: "about:blank".to_string() }
    );
    assert!(check_url("x").is_ok());
}

#[test]
fn empty_url_is_rejected() {
    match load_uri_call("") {
        Err(Error::InvalidUrl(text)) => assert_eq!(text, "URL cannot be empty"),
        other => panic!("unexpected result {:?}", other),
    }
    match check_url("") {
        Err(Error::InvalidUrl(text)) => assert_eq!(text, "URL cannot be empty"),
        other => panic!("unexpected result {:?}", other),
    }
}

#[test]
fn url_with_a_zero_byte_is_rejected_whole() {
    match load_uri_call("https://exa\0mple.com") {
        Err(Error::InvalidUrl(text)) => assert_eq!(text, "https://exa\0mple.com"),
        other => panic!("unexpected result {:?}", other),
    }
    match check_url("\0") {
        Err(Error::InvalidUrl(text)) => assert_eq!(text, "\0"),
        other => panic!("unexpected result {:?}", other),
    }
}

#[test]
fn html_is_loaded_with_or_without_the_bridge() {
    assert_eq!(
        load_html_call("<h1>Hi</h1>", None, false).unwrap(),
        EngineCall::LoadHtml { document: "<h1>Hi</h1>".to_string(), base_url: None }
    );
    assert_eq!(
        load_html_call("<h1>Hi</h1>", Some("https://example.com/"), true).unwrap(),
        EngineCall::LoadHtml {
            document: format!("<h1>Hi</h1><script>{}</script>", JS_BRIDGE),
            base_url: Some("https://example.com/".to_string()),
        }
    );
}

#[test]
fn empty_html_is_rejected() {
    for bridge in [false, true] {
        match load_html_call("", None, bridge) {
            Err(Error::InvalidUrl(text)) => assert_eq!(text, "HTML cannot be empty"),
            other => panic!("unexpected result {:?}", other),
        }
        // the empty document is reported before anything else
        match load_html_call("", Some("bad\0base"), bridge) {
            Err(Error::InvalidUrl(text)) => assert_eq!(text, "HTML cannot be empty"),
            other => panic!("unexpected result {:?}", other),
        }
    }
}

#[test]
fn html_with_a_zero_byte_is_rejected_with_its_place() {
    match load_html_call("<p>\0</p>", None, false) {
        Err(Error::InvalidUrl(text)) => {
            assert_eq!(text, "nul byte found in provided data at position: 3")
        }
        other => panic!("unexpected result {:?}", other),
    }
    match load_html_call("0123456789\0\0", None, true) {
        Err(Error::InvalidUrl(text)) => {
            assert_eq!(text, "nul byte found in provided data at position: 10")
        }
        other => panic!("unexpected result {:?}", other),
    }
    // the document is reported before the base URL
    match load_html_call("\0", Some(""), false) {
        Err(Error::InvalidUrl(text)) => {
            assert_eq!(text, "nul byte found in provided data at position: 0")
        }
        other => panic!("unexpected result {:?}", other),
    }
}

#[test]
fn base_url_is_checked_as_a_url() {
    match load_html_call("<p></p>", Some("https://exa\0mple.com/"), false) {
        Err(Error::InvalidUrl(text)) => assert_eq!(text, "https://exa\0mple.com/"),
        other => panic!("unexpected result {:?}", other),
    }
    match load_html_call("<p></p>", Some(""), true) {
        Err(Error::InvalidUrl(text)) => assert_eq!(text, "URL cannot be empty"),
        other => panic!("unexpected result {:?}", other),
    }
}

#[test]
fn script_is_evaluated_with_its_length_in_bytes() {
    assert_eq!(
        evaluate_call("1+1").unwrap(),
        EngineCall::Evaluate { script: "1+1".to_string(), length: 3 }
    );
    assert_eq!(
        evaluate_call("'\u{00E9}'").unwrap(),
        EngineCall::Evaluate { script: "'\u{00E9}'".to_string(), length: 4 }
    );
    assert_eq!(
        evaluate_call("").unwrap(),
        EngineCall::Evaluate { script: String::new(), length: 0 }
    );
}

#[test]
fn script_with_a_zero_byte_is_rejected() {
    match evaluate_call("\0") {
        Err(Error::JavaScriptError(text)) => {
            assert_eq!(text, "nul byte found in provided data at position: 0")
        }
        other => panic!("unexpected result {:?}", other),
    }
    match evaluate_call("var a = 1;\0") {
        Err(Error::JavaScriptError(text)) => {
            assert_eq!(text, "nul byte found in provided data at position: 10")
        }
        other => panic!("unexpected result {:?}", other),
    }
}

#[test]
fn message_is_sent_as_a_call_of_the_receiver() {
    let message = BackendMessage::response("r1".to_string(), Value::Bool(true));
    let json = message.to_json().unwrap();
    let plain = format!("window.__wpe_receive({})", json);
    assert_eq!(
        send_call(&message, false).unwrap(),
        EngineCall::Evaluate { length: plain.len() as i64, script: plain }
    );
    let guarded = format!("if(window.__wpe_receive){{window.__wpe_receive({})}}", json);
    assert_eq!(
        send_call(&message, true).unwrap(),
        EngineCall::Evaluate { length: guarded.len() as i64, script: guarded }
    );
}

#[test]
fn message_with_a_zero_byte_is_sent_escaped() {
    let message = BackendMessage::new("note", Value::String("a\0b".to_string()));
    match send_call(&message, false).unwrap() {
        EngineCall::Evaluate { script, .. } => {
            assert!(!script.contains('\0'));
            assert!(script.contains("a\\u0000b"));
        }
        other => panic!("unexpected call {:?}", other),
    }
}

#[test]
fn view_size_is_given_within_the_views_range() {
    assert_eq!(view_resized_call(1280, 720), EngineCall::ViewResized { width: 1280, height: 720 });
    assert_eq!(view_resized_call(0, 0), EngineCall::ViewResized { width: 1, height: 1 });
    assert_eq!(view_resized_call(0, 9), EngineCall::ViewResized { width: 1, height: 9 });
    assert_eq!(
        view_resized_call(0x7FFF_FFFF, 0x8000_0000),
        EngineCall::ViewResized { width: i32::MAX, height: i32::MAX }
    );
    assert_eq!(
        view_resized_call(u32::MAX, 1),
        EngineCall::ViewResized { width: i32::MAX, height: 1 }
    );
}

#[test]
fn title_with_a_zero_byte_is_not_set() {
    assert_eq!(
        set_title_call("WPE Native IPC Example"),
        Some(EngineCall::SetTitle { title: "WPE Native IPC Example".to_string() })
    );
    assert_eq!(set_title_call(""), Some(EngineCall::SetTitle { title: String::new() }));
    assert_eq!(set_title_call("a\0b"), None);
}
