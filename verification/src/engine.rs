//! The calls that the runtime asks its caller to make on the engine.
//!
//! The runtime decides and checks; the caller holds the engine's handles and
//! makes the calls. A call is handed over as a value of `EngineCall`, with
//! every argument in the form in which the engine takes it. What the host asks
//! the engine to load or to run is checked before it becomes a call: nothing
//! empty is loaded, and since the engine takes its texts with a terminating
//! zero byte, a text that holds one is rejected rather than cut short.

use crate::error::Error;
use crate::input::EngineEvent;
use crate::ipc::{
    encodes_backend, guarded_receive_script, receive_script, text_of, with_bridge,
    BackendMessage, BackendMessageView, IpcBridge,
};
use crate::json::{error_text, json_text};
use crate::text::{describe_nul, find_nul, has_nul, is_first_nul, nul_description};
use vstd::prelude::*;
use vstd::string::StringExecFns;
use vstd::string::StringSliceAdditionalSpecFns;
use vstd::utf8::encode_utf8;

verus! {

/// One call on the engine.
#[derive(Debug, Clone, PartialEq, Eq)]
pub enum EngineCall {
    /// Load the page at a URL.
    LoadUri { uri: String },
    /// Load a document, resolving relative references against the base URL.
    LoadHtml { document: String, base_url: Option<String> },
    /// Evaluate a script in the page. The length is the number of bytes of
    /// the script, or -1 for a script that ends where its text ends.
    Evaluate { script: String, length: i64 },
    /// Tell the view its new size.
    ViewResized { width: i32, height: i32 },
    /// Tell the exporting backend its new size.
    BackendResized { columns: u32, rows: u32 },
    /// Set the title of the window.
    SetTitle { title: String },
    /// Go back in history.
    GoBack,
    /// Go forward in history.
    GoForward,
    /// Reload the current page.
    Reload,
    /// Stop loading the current page.
    StopLoading,
    /// Tell the exporting backend that the frame was taken, so that it may
    /// export the next one.
    FrameComplete,
    /// Give the view the input focus.
    FocusIn,
    /// Take the input focus from the view.
    FocusOut,
    /// Hand an input event to the view.
    Inject(EngineEvent),
}

/// A dimension as the view takes it: the number itself, but one for nothing,
/// and the largest that the view can take for anything larger.
pub open spec fn view_extent(n: u32) -> i32 {
    if n == 0 {
        1
    } else if n <= i32::MAX {
        n as i32
    } else {
        i32::MAX
    }
}

/// A script's length as the engine takes it: the number of bytes, or -1, which
/// stands for the whole text, where the number is beyond the engine's range.
pub open spec fn script_length(len: nat) -> i64 {
    if len <= i64::MAX {
        len as i64
    } else {
        -1i64
    }
}

/// Whether a URL can be handed to the engine: it is not empty and holds no
/// zero byte.
pub open spec fn url_accepted(url: Seq<char>) -> bool {
    url.len() > 0 && !has_nul(encode_utf8(url))
}

/// Whether an error is the rejection of a URL: an empty URL is rejected with
/// `InvalidUrl` and the words "URL cannot be empty", and a URL with a zero
/// byte is rejected with `InvalidUrl` and the URL itself.
pub open spec fn rejects_url(url: Seq<char>, e: Error) -> bool {
    if url.len() == 0 {
        e matches Error::InvalidUrl(text) && text@ == "URL cannot be empty"@
    } else {
        has_nul(encode_utf8(url)) && (e matches Error::InvalidUrl(text) && text@ == url)
    }
}

/// Whether a base URL can be handed to the engine: there is none, or it is a
/// URL that can be.
pub open spec fn base_accepted(base_url: Option<&str>) -> bool {
    match base_url {
        Some(base) => url_accepted(base@),
        None => true,
    }
}

/// The text of a base URL.
pub open spec fn base_text(base_url: Option<&str>) -> Option<Seq<char>> {
    match base_url {
        Some(base) => Some(base@),
        None => None,
    }
}

/// The document that the engine is given: the one asked for, followed by the
/// bridge code where that was asked for.
pub open spec fn document_text(html: Seq<char>, bridge: bool) -> Seq<char> {
    if bridge {
        with_bridge(html)
    } else {
        html
    }
}

/// Whether an error is the rejection of a text for its first zero byte, in
/// the words of the given kind of error.
pub open spec fn rejects_nul(text: Seq<char>, script: bool, e: Error) -> bool {
    exists|at: int|
        {
            &&& is_first_nul(encode_utf8(text), at)
            &&& if script {
                e matches Error::JavaScriptError(words) && words@ == nul_description(at as nat)
            } else {
                e matches Error::InvalidUrl(words) && words@ == nul_description(at as nat)
            }
        }
}

/// Whether a result is the call that loads a URL, or its rejection. The URL
/// is loaded as it is given, and rejected where it is empty or holds a zero
/// byte.
pub open spec fn loads_url(url: Seq<char>, r: Result<EngineCall, Error>) -> bool {
    match r {
        Ok(call) => {
            &&& url_accepted(url)
            &&& call matches EngineCall::LoadUri { uri }
            &&& uri@ == url
        },
        Err(e) => rejects_url(url, e),
    }
}

/// Whether a result is the call that loads a document, or its rejection.
///
/// What the caller gives is checked in this order, and the first defect is the
/// one reported, always as `InvalidUrl`: an empty document, with the words
/// "HTML cannot be empty"; a zero byte in the document that the engine is
/// given, with the place of the first one; a base URL that is empty or holds a
/// zero byte, as a URL is rejected.
pub open spec fn loads_html(
    html: Seq<char>,
    base_url: Option<&str>,
    bridge: bool,
    r: Result<EngineCall, Error>,
) -> bool {
    match r {
        Ok(call) => {
            &&& html.len() > 0
            &&& !has_nul(encode_utf8(document_text(html, bridge)))
            &&& base_accepted(base_url)
            &&& call matches EngineCall::LoadHtml { document, base_url: base }
            &&& document@ == document_text(html, bridge)
            &&& text_of(base) == base_text(base_url)
        },
        Err(e) => if html.len() == 0 {
            e matches Error::InvalidUrl(text) && text@ == "HTML cannot be empty"@
        } else if has_nul(encode_utf8(document_text(html, bridge))) {
            rejects_nul(document_text(html, bridge), false, e)
        } else {
            base_url matches Some(base) && rejects_url(base@, e)
        },
    }
}

/// Whether a result is the call that evaluates a script, or its rejection: a
/// script with a zero byte is rejected with `JavaScriptError` and the place
/// of the first one.
pub open spec fn evaluates(script: Seq<char>, r: Result<EngineCall, Error>) -> bool {
    match r {
        Ok(call) => {
            &&& !has_nul(encode_utf8(script))
            &&& call matches EngineCall::Evaluate { script: text, length }
            &&& text@ == script
            &&& length == script_length(encode_utf8(script).len())
        },
        Err(e) => rejects_nul(script, true, e),
    }
}

/// Whether a result is the call that delivers a message to the page, or the
/// reason why there is none.
///
/// The message's envelope is printed, the receiver call is put around it, and
/// the script is checked like any other. Where the envelope cannot be printed,
/// the error is `Serialization`, or `JavaScriptError` for a guarded delivery.
pub open spec fn sends(m: BackendMessageView, guarded: bool, r: Result<EngineCall, Error>) -> bool {
    exists|v: serde_json::Value| #[trigger]
        encodes_backend(v, m) && match json_text(v) {
            Some(json) => evaluates(
                if guarded {
                    guarded_receive_script(json)
                } else {
                    receive_script(json)
                },
                r,
            ),
            None => match r {
                Ok(_) => false,
                Err(e) => if guarded {
                    e is JavaScriptError
                } else {
                    e is Serialization
                },
            },
        }
}

/// Check a URL before it is handed to the engine.
///
/// # Errors
/// Returns `InvalidUrl` for an empty URL, and for one that holds a zero byte.
pub fn check_url(url: &str) -> (r: Result<(), Error>)
    ensures
        match r {
            Ok(_) => url_accepted(url@),
            Err(e) => rejects_url(url@, e),
        },
{
    if url.is_empty() {
        return Err(Error::InvalidUrl(String::from_str("URL cannot be empty")));
    }
    match find_nul(url.as_bytes()) {
        Some(_) => Err(Error::InvalidUrl(String::from_str(url))),
        None => Ok(()),
    }
}

/// The call that loads a URL.
///
/// # Errors
/// Returns `InvalidUrl` for an empty URL, and for one that holds a zero byte.
pub fn load_uri_call(url: &str) -> (r: Result<EngineCall, Error>)
    ensures
        loads_url(url@, r),
{
    match check_url(url) {
        Ok(_) => Ok(EngineCall::LoadUri { uri: String::from_str(url) }),
        Err(e) => Err(e),
    }
}

/// The call that loads a document, with the bridge code added if `bridge` is
/// set.
///
/// # Errors
/// Returns `InvalidUrl` for an empty document, for a document that holds a
/// zero byte, and for a base URL that is empty or holds a zero byte.
pub fn load_html_call(html: &str, base_url: Option<&str>, bridge: bool) -> (r: Result<
    EngineCall,
    Error,
>)
    ensures
        loads_html(html@, base_url, bridge, r),
{
    if html.is_empty() {
        return Err(Error::InvalidUrl(String::from_str("HTML cannot be empty")));
    }
    let document = if bridge {
        IpcBridge::inject_bridge(html)
    } else {
        String::from_str(html)
    };
    match find_nul(document.as_str().as_bytes()) {
        Some(at) => {
            let e = Error::InvalidUrl(describe_nul(at));
            assert(is_first_nul(encode_utf8(document_text(html@, bridge)), at as int));
            Err(e)
        },
        None => {
            let base = match base_url {
                Some(base) => match check_url(base) {
                    Ok(_) => Some(String::from_str(base)),
                    Err(e) => {
                        return Err(e);
                    },
                },
                None => None,
            };
            Ok(EngineCall::LoadHtml { document, base_url: base })
        },
    }
}

/// The call that evaluates a script.
///
/// # Errors
/// Returns `JavaScriptError` for a script that holds a zero byte.
pub fn evaluate_call(script: &str) -> (r: Result<EngineCall, Error>)
    ensures
        evaluates(script@, r),
{
    let bytes = script.as_bytes();
    match find_nul(bytes) {
        Some(at) => {
            let e = Error::JavaScriptError(describe_nul(at));
            assert(is_first_nul(encode_utf8(script@), at as int));
            Err(e)
        },
        None => {
            let len = bytes.len();
            let length: i64 = if len as u128 <= 0x7FFF_FFFF_FFFF_FFFFu128 {
                len as i64
            } else {
                -1
            };
            Ok(EngineCall::Evaluate { script: String::from_str(script), length })
        },
    }
}

/// The call that delivers a message to the page: the evaluation of the
/// receiver call around the message's envelope. With `guarded` the script
/// tests for the page's receiver first.
///
/// # Errors
/// Returns `Serialization` where the envelope cannot be printed, or, for a
/// guarded delivery, `JavaScriptError` with the printer's words.
pub fn send_call(message: &BackendMessage, guarded: bool) -> (r: Result<EngineCall, Error>)
    ensures
        sends(message@, guarded, r),
{
    let v = message.to_value();
    match crate::json::print_value(&v) {
        Ok(json) => {
            let script = if guarded {
                crate::ipc::guarded_delivery_script(json.as_str())
            } else {
                crate::ipc::delivery_script(json.as_str())
            };
            let r = evaluate_call(script.as_str());
            assert(encodes_backend(v, message@));
            r
        },
        Err(cause) => {
            let r = if guarded {
                Err(Error::JavaScriptError(error_text(&cause)))
            } else {
                Err(Error::Serialization(cause))
            };
            assert(encodes_backend(v, message@));
            r
        },
    }
}

/// The call that tells the view its new size. A dimension of nothing is
/// given as one, and a dimension beyond the view's range as the largest that
/// the view can take.
pub fn view_resized_call(width: u32, height: u32) -> (call: EngineCall)
    ensures
        call == (EngineCall::ViewResized { width: view_extent(width), height: view_extent(height) }),
{
    EngineCall::ViewResized { width: extent(width), height: extent(height) }
}

/// A dimension as the view takes it.
fn extent(n: u32) -> (e: i32)
    ensures
        e == view_extent(n),
        e >= 1,
{
    if n == 0 {
        1
    } else if n <= 0x7FFF_FFFF {
        n as i32
    } else {
        0x7FFF_FFFF
    }
}

/// The call that sets the window's title, or nothing for a title that holds a
/// zero byte: such a title is not set at all rather than cut short.
pub fn set_title_call(title: &str) -> (call: Option<EngineCall>)
    ensures
        match call {
            Some(c) => !has_nul(encode_utf8(title@)) && (c matches EngineCall::SetTitle { title: t }
                && t@ == title@),
            None => has_nul(encode_utf8(title@)),
        },
{
    match find_nul(title.as_bytes()) {
        Some(_) => None,
        None => Some(EngineCall::SetTitle { title: String::from_str(title) }),
    }
}

} // verus!
