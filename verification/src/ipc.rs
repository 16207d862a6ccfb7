//! The message protocol between page scripts and the host.
//!
//! A message travels as a JSON object, the envelope. The page sends
//! `{"type", "payload", "_requestId"?}`; the host answers or notifies with
//! `{"type", "payload", "_responseId"?, "result"?, "error"?}`. A message that
//! carries a request id is a request, and its reply repeats the id and carries
//! either a result or an error. A message without an id is a notification and
//! is never replied to.

use crate::error::Error;
use crate::json::{
    json_is_null, json_member, json_members, json_parsed, json_string, json_text,
    map_insert, new_map, null_value, object_value, parse_value, print_value, string_value,
    value_as_str, value_get, value_is_null, value_is_object,
};
use serde_json::Error as JsonError;
use serde_json::Value;
use std::collections::VecDeque;
use vstd::prelude::*;
use vstd::string::StringExecFns;

verus! {

/// JavaScript bridge code injected into web pages.
pub const JS_BRIDGE: &'static str = r#"
(function() {
    'use strict';

    // Message queue for outgoing messages
    const pendingMessages = [];

    // Receive message from Rust
    window.__wpe_receive = function(msg) {
        window.dispatchEvent(new CustomEvent('wpe:message', { detail: msg }));
    };

    // Send message to Rust (via custom URI scheme)
    window.__wpe_send = function(msg) {
        pendingMessages.push(msg);
        // Trigger fetch to custom endpoint that Rust intercepts
        fetch('wpe://message', {
            method: 'POST',
            headers: { 'Content-Type': 'application/json' },
            body: JSON.stringify(msg)
        }).catch(() => {});
    };

    // Poll pending messages (called by Rust)
    window.__wpe_poll = function() {
        const msgs = pendingMessages.splice(0);
        return JSON.stringify(msgs);
    };

    // Public API
    window.wpe = {
        send(type, payload) {
            window.__wpe_send({ type, payload });
        },

        onMessage(callback) {
            window.addEventListener('wpe:message', (e) => callback(e.detail));
        },

        // Promise-based request/response
        async call(type, payload) {
            return new Promise((resolve, reject) => {
                const id = Math.random().toString(36).slice(2);
                const handler = (e) => {
                    if (e.detail && e.detail._responseId === id) {
                        window.removeEventListener('wpe:message', handler);
                        if (e.detail.error) {
                            reject(new Error(e.detail.error));
                        } else {
                            resolve(e.detail.result);
                        }
                    }
                };
                window.addEventListener('wpe:message', handler);
                window.__wpe_send({ type, payload, _requestId: id });

                // Timeout after 30 seconds
                setTimeout(() => {
                    window.removeEventListener('wpe:message', handler);
                    reject(new Error('Request timeout'));
                }, 30000);
            });
        }
    };

    // Signal that bridge is ready
    window.dispatchEvent(new CustomEvent('wpe:ready'));
})();
"#;

/// The name under which the page-to-host message channel is registered. The
/// bootstrap script posts to the channel of this name.
pub const CHANNEL_NAME: &'static str = "wpe";

/// The signal that the engine raises for a message on the channel.
pub const CHANNEL_SIGNAL: &'static str = "script-message-received::wpe";

/// A message from the page's scripts to the host.
#[derive(Debug, Clone)]
pub struct FrontendMessage {
    pub message_type: String,
    pub payload: Value,
    pub request_id: Option<String>,
}

/// A message from the host to the page's scripts.
#[derive(Debug, Clone)]
pub struct BackendMessage {
    pub message_type: String,
    pub payload: Value,
    pub response_id: Option<String>,
    pub result: Option<Value>,
    pub error: Option<String>,
}

/// What a `FrontendMessage` says.
pub struct FrontendMessageView {
    pub message_type: Seq<char>,
    pub payload: Value,
    pub request_id: Option<Seq<char>>,
}

/// What a `BackendMessage` says.
pub struct BackendMessageView {
    pub message_type: Seq<char>,
    pub payload: Value,
    pub response_id: Option<Seq<char>>,
    pub result: Option<Value>,
    pub error: Option<Seq<char>>,
}

/// The text of an optional string.
pub open spec fn text_of(s: Option<String>) -> Option<Seq<char>> {
    match s {
        Some(s) => Some(s@),
        None => None,
    }
}

impl View for FrontendMessage {
    type V = FrontendMessageView;

    open spec fn view(&self) -> FrontendMessageView {
        FrontendMessageView {
            message_type: self.message_type@,
            payload: self.payload,
            request_id: text_of(self.request_id),
        }
    }
}

impl View for BackendMessage {
    type V = BackendMessageView;

    open spec fn view(&self) -> BackendMessageView {
        BackendMessageView {
            message_type: self.message_type@,
            payload: self.payload,
            response_id: text_of(self.response_id),
            result: self.result,
            error: text_of(self.error),
        }
    }
}

impl BackendMessageView {
    /// Whether the message is a well-formed reply to the request of the given
    /// id: it repeats the id, and carries a result or an error, not both and
    /// not neither.
    pub open spec fn is_reply_to(self, request_id: Seq<char>) -> bool {
        &&& self.response_id == Some(request_id)
        &&& (self.result is Some) != (self.error is Some)
    }

    /// Whether the message is the reply that reports the given result for the
    /// request of the given id.
    pub open spec fn is_success_reply(self, request_id: Seq<char>, result: Value) -> bool {
        &&& self.message_type == "response"@
        &&& json_is_null(self.payload)
        &&& self.response_id == Some(request_id)
        &&& self.result == Some(result)
        &&& self.error is None
    }

    /// Whether the message is the reply that reports the given failure for the
    /// request of the given id.
    pub open spec fn is_error_reply(self, request_id: Seq<char>, error: Seq<char>) -> bool {
        &&& self.message_type == "response"@
        &&& json_is_null(self.payload)
        &&& self.response_id == Some(request_id)
        &&& self.result is None
        &&& self.error == Some(error)
    }
}

/// Why a JSON value is no envelope.
#[derive(Debug, Clone, Copy, PartialEq, Eq, Structural)]
pub enum EnvelopeDefect {
    /// The value is not a JSON object.
    NotAnObject,
    /// The object has no member `type`.
    MissingType,
    /// The member `type` is not a string.
    InvalidType,
    /// The request or response id is neither a string nor null.
    InvalidId,
    /// The member `error` is neither a string nor null.
    InvalidError,
}

/// Why a text could not be decoded as a message.
#[derive(Debug)]
pub enum DecodeError {
    /// The text is not JSON.
    Syntax(JsonError),
    /// The text is JSON, but not an envelope.
    Envelope(EnvelopeDefect),
}

/// Whether the member of the given name is a string with the given text.
pub open spec fn has_string_member(v: Value, key: Seq<char>, text: Seq<char>) -> bool {
    match json_member(v, key) {
        Some(member) => json_string(member) == Some(text),
        None => false,
    }
}

/// Whether the member of the given name is the given value.
pub open spec fn has_member(v: Value, key: Seq<char>, member: Value) -> bool {
    json_member(v, key) == Some(member)
}

/// Whether an optional string field is written as the wire format asks: as a
/// string member where it is set, and left out where it is not.
pub open spec fn writes_optional_string(v: Value, key: Seq<char>, field: Option<Seq<char>>) -> bool {
    match field {
        Some(text) => has_string_member(v, key, text),
        None => json_member(v, key) is None,
    }
}

/// Whether an optional value field is written as the wire format asks.
pub open spec fn writes_optional_value(v: Value, key: Seq<char>, field: Option<Value>) -> bool {
    match field {
        Some(member) => has_member(v, key, member),
        None => json_member(v, key) is None,
    }
}

/// Whether a JSON value is the envelope of a page-to-host message: an object
/// with `type`, `payload` and, for a request, `_requestId`, and nothing else.
pub open spec fn encodes_frontend(v: Value, m: FrontendMessageView) -> bool {
    &&& json_members(v) is Some
    &&& has_string_member(v, "type"@, m.message_type)
    &&& has_member(v, "payload"@, m.payload)
    &&& writes_optional_string(v, "_requestId"@, m.request_id)
    &&& forall|key: Seq<char>| #[trigger]
        json_member(v, key) is Some ==> key == "type"@ || key == "payload"@ || key
            == "_requestId"@
}

/// Whether a JSON value is the envelope of a host-to-page message: an object
/// with `type`, `payload` and those of `_responseId`, `result` and `error`
/// that are set, and nothing else.
pub open spec fn encodes_backend(v: Value, m: BackendMessageView) -> bool {
    &&& json_members(v) is Some
    &&& has_string_member(v, "type"@, m.message_type)
    &&& has_member(v, "payload"@, m.payload)
    &&& writes_optional_string(v, "_responseId"@, m.response_id)
    &&& writes_optional_value(v, "result"@, m.result)
    &&& writes_optional_string(v, "error"@, m.error)
    &&& forall|key: Seq<char>| #[trigger]
        json_member(v, key) is Some ==> key == "type"@ || key == "payload"@ || key
            == "_responseId"@ || key == "result"@ || key == "error"@
}

/// Whether an optional string member is one that can be read: a string, null,
/// or missing.
pub open spec fn optional_string_readable(v: Value, key: Seq<char>) -> bool {
    match json_member(v, key) {
        Some(member) => json_string(member) is Some || json_is_null(member),
        None => true,
    }
}

/// What an optional string member reads as: its text where it is a string,
/// and unset where it is null, missing, or anything else.
pub open spec fn optional_string_read(v: Value, key: Seq<char>) -> Option<Seq<char>> {
    match json_member(v, key) {
        Some(member) => json_string(member),
        None => None,
    }
}

/// What an optional value member reads as: unset where it is null or missing,
/// and the member otherwise.
pub open spec fn optional_value_read(v: Value, key: Seq<char>) -> Option<Value> {
    match json_member(v, key) {
        Some(member) => if json_is_null(member) {
            None
        } else {
            Some(member)
        },
        None => None,
    }
}

/// Whether a payload is what the member `payload` reads as: the member where
/// there is one, and null where it is missing.
pub open spec fn payload_read(v: Value, payload: Value) -> bool {
    match json_member(v, "payload"@) {
        Some(member) => payload == member,
        None => json_is_null(payload),
    }
}

/// What keeps the type of an envelope from being read, if anything.
pub open spec fn type_defect(v: Value) -> Option<EnvelopeDefect> {
    if json_members(v) is None {
        Some(EnvelopeDefect::NotAnObject)
    } else {
        match json_member(v, "type"@) {
            None => Some(EnvelopeDefect::MissingType),
            Some(member) => if json_string(member) is None {
                Some(EnvelopeDefect::InvalidType)
            } else {
                None
            },
        }
    }
}

/// What keeps a JSON value from being read as a page-to-host message, if
/// anything. The first defect in the order of the fields is reported.
pub open spec fn frontend_defect(v: Value) -> Option<EnvelopeDefect> {
    if type_defect(v) is Some {
        type_defect(v)
    } else if !optional_string_readable(v, "_requestId"@) {
        Some(EnvelopeDefect::InvalidId)
    } else {
        None
    }
}

/// What keeps a JSON value from being read as a host-to-page message, if
/// anything. The first defect in the order of the fields is reported.
pub open spec fn backend_defect(v: Value) -> Option<EnvelopeDefect> {
    if type_defect(v) is Some {
        type_defect(v)
    } else if !optional_string_readable(v, "_responseId"@) {
        Some(EnvelopeDefect::InvalidId)
    } else if !optional_string_readable(v, "error"@) {
        Some(EnvelopeDefect::InvalidError)
    } else {
        None
    }
}

/// Whether a message is what an envelope without defect reads as.
pub open spec fn decodes_frontend(v: Value, m: FrontendMessageView) -> bool {
    &&& has_string_member(v, "type"@, m.message_type)
    &&& payload_read(v, m.payload)
    &&& m.request_id == optional_string_read(v, "_requestId"@)
}

/// Whether a message is what an envelope without defect reads as.
pub open spec fn decodes_backend(v: Value, m: BackendMessageView) -> bool {
    &&& has_string_member(v, "type"@, m.message_type)
    &&& payload_read(v, m.payload)
    &&& m.response_id == optional_string_read(v, "_responseId"@)
    &&& m.result == optional_value_read(v, "result"@)
    &&& m.error == optional_string_read(v, "error"@)
}

/// Whether a decoding result is what the text stands for: a syntax error where
/// the text is not JSON, the envelope's first defect where it has one, and the
/// message that the envelope reads as otherwise.
pub open spec fn frontend_decoded(
    text: Seq<char>,
    r: std::result::Result<FrontendMessage, DecodeError>,
) -> bool {
    match json_parsed(text) {
        None => r matches Err(DecodeError::Syntax(_)),
        Some(v) => match frontend_defect(v) {
            Some(defect) => r matches Err(DecodeError::Envelope(d)) && d == defect,
            None => r matches Ok(m) && decodes_frontend(v, m@),
        },
    }
}

/// Whether a decoding result is what the text stands for, for a host-to-page
/// message.
pub open spec fn backend_decoded(
    text: Seq<char>,
    r: std::result::Result<BackendMessage, DecodeError>,
) -> bool {
    match json_parsed(text) {
        None => r matches Err(DecodeError::Syntax(_)),
        Some(v) => match backend_defect(v) {
            Some(defect) => r matches Err(DecodeError::Envelope(d)) && d == defect,
            None => r matches Ok(m) && decodes_backend(v, m@),
        },
    }
}

/// Whether an encoding result is the text of the message's envelope: the
/// print-out of some envelope of the message, or the error of printing it.
pub open spec fn backend_encoded(m: BackendMessageView, r: std::result::Result<String, Error>) -> bool {
    exists|v: Value| #[trigger]
        encodes_backend(v, m) && match r {
            Ok(text) => json_text(v) == Some(text@),
            Err(e) => json_text(v) is None && e is Serialization,
        }
}

/// Whether an encoding result is the text of the message's envelope, for a
/// page-to-host message.
pub open spec fn frontend_encoded(m: FrontendMessageView, r: std::result::Result<String, Error>) -> bool {
    exists|v: Value| #[trigger]
        encodes_frontend(v, m) && match r {
            Ok(text) => json_text(v) == Some(text@),
            Err(e) => json_text(v) is None && e is Serialization,
        }
}

/// The names of the members are distinct.
proof fn lemma_keys_distinct()
    ensures
        "type"@ != "payload"@,
        "type"@ != "_requestId"@,
        "type"@ != "_responseId"@,
        "type"@ != "result"@,
        "type"@ != "error"@,
        "payload"@ != "_requestId"@,
        "payload"@ != "_responseId"@,
        "payload"@ != "result"@,
        "payload"@ != "error"@,
        "_responseId"@ != "result"@,
        "_responseId"@ != "error"@,
        "result"@ != "error"@,
{
    reveal_strlit("type");
    reveal_strlit("payload");
    reveal_strlit("_requestId");
    reveal_strlit("_responseId");
    reveal_strlit("result");
    reveal_strlit("error");
    assert("type"@.len() == 4);
    assert("payload"@.len() == 7);
    assert("_requestId"@.len() == 10);
    assert("_responseId"@.len() == 11);
    assert("result"@.len() == 6);
    assert("error"@.len() == 5);
}

/// Read an optional string member: a string gives its text, null or a missing
/// member gives nothing, and anything else is the given defect.
fn read_optional_string(v: &Value, key: &str, defect: EnvelopeDefect) -> (r: std::result::Result<
    Option<String>,
    EnvelopeDefect,
>)
    ensures
        match r {
            Ok(field) => optional_string_readable(*v, key@) && text_of(field)
                == optional_string_read(*v, key@),
            Err(d) => !optional_string_readable(*v, key@) && d == defect,
        },
{
    match value_get(v, key) {
        None => Ok(None),
        Some(member) => match value_as_str(member) {
            Some(text) => Ok(Some(String::from_str(text))),
            None => if value_is_null(member) {
                Ok(None)
            } else {
                Err(defect)
            },
        },
    }
}

/// Read an optional value member: null or a missing member gives nothing.
fn read_optional_value(v: &Value, key: &str) -> (r: Option<Value>)
    ensures
        r == optional_value_read(*v, key@),
{
    match value_get(v, key) {
        None => None,
        Some(member) => if value_is_null(member) {
            None
        } else {
            Some(member.clone())
        },
    }
}

/// Read the member `type`.
fn read_type(v: &Value) -> (r: std::result::Result<String, EnvelopeDefect>)
    ensures
        match r {
            Ok(text) => type_defect(*v) is None && has_string_member(*v, "type"@, text@),
            Err(d) => type_defect(*v) == Some(d),
        },
{
    if !value_is_object(v) {
        return Err(EnvelopeDefect::NotAnObject);
    }
    match value_get(v, "type") {
        None => Err(EnvelopeDefect::MissingType),
        Some(member) => match value_as_str(member) {
            Some(text) => Ok(String::from_str(text)),
            None => Err(EnvelopeDefect::InvalidType),
        },
    }
}

/// Read the member `payload`, which is null where it is missing.
fn read_payload(v: &Value) -> (payload: Value)
    ensures
        payload_read(*v, payload),
{
    match value_get(v, "payload") {
        Some(member) => member.clone(),
        None => null_value(),
    }
}

impl FrontendMessage {
    /// The envelope of this message as a JSON value.
    pub fn to_value(&self) -> (v: Value)
        ensures
            encodes_frontend(v, self@),
    {
        let mut entries = new_map();
        map_insert(&mut entries, String::from_str("type"), string_value(self.message_type.clone()));
        map_insert(&mut entries, String::from_str("payload"), self.payload.clone());
        match &self.request_id {
            Some(id) => {
                map_insert(&mut entries, String::from_str("_requestId"), string_value(id.clone()));
            },
            None => {},
        }
        proof {
            lemma_keys_distinct();
        }
        object_value(entries)
    }

    /// Read a message from its envelope.
    ///
    /// The value must be an object whose member `type` is a string. A missing
    /// `payload` reads as null; a missing or null `_requestId` reads as a
    /// notification. Other members are ignored.
    pub fn from_value(v: &Value) -> (r: std::result::Result<FrontendMessage, EnvelopeDefect>)
        ensures
            match r {
                Ok(m) => frontend_defect(*v) is None && decodes_frontend(*v, m@),
                Err(d) => frontend_defect(*v) == Some(d),
            },
    {
        let message_type = match read_type(v) {
            Ok(text) => text,
            Err(d) => {
                return Err(d);
            },
        };
        let request_id = match read_optional_string(v, "_requestId", EnvelopeDefect::InvalidId) {
            Ok(field) => field,
            Err(d) => {
                return Err(d);
            },
        };
        let payload = read_payload(v);
        Ok(FrontendMessage { message_type, payload, request_id })
    }

    /// Encode this message as the text of its envelope.
    pub fn to_json(&self) -> (r: std::result::Result<String, Error>)
        ensures
            frontend_encoded(self@, r),
    {
        let v = self.to_value();
        match print_value(&v) {
            Ok(text) => {
                let r = Ok(text);
                assert(encodes_frontend(v, self@));
                r
            },
            Err(cause) => {
                let r = Err(Error::Serialization(cause));
                assert(encodes_frontend(v, self@));
                r
            },
        }
    }

    /// Decode a message from the text that a page script posted.
    ///
    /// Fails with `Syntax` where the text is not JSON, and with the envelope's
    /// first defect where the JSON is no envelope.
    pub fn from_json(text: &str) -> (r: std::result::Result<FrontendMessage, DecodeError>)
        ensures
            frontend_decoded(text@, r),
    {
        match parse_value(text) {
            Err(cause) => Err(DecodeError::Syntax(cause)),
            Ok(v) => match FrontendMessage::from_value(&v) {
                Ok(m) => Ok(m),
                Err(d) => Err(DecodeError::Envelope(d)),
            },
        }
    }
}

impl BackendMessage {
    /// Create a new message: a notification of the given type.
    #[must_use]
    pub fn new(message_type: &str, payload: Value) -> (m: BackendMessage)
        ensures
            m@ == (BackendMessageView {
                message_type: message_type@,
                payload: payload,
                response_id: None,
                result: None,
                error: None,
            }),
    {
        BackendMessage {
            message_type: String::from_str(message_type),
            payload,
            response_id: None,
            result: None,
            error: None,
        }
    }

    /// Create a success response to a request.
    #[must_use]
    pub fn response(request_id: String, result: Value) -> (m: BackendMessage)
        ensures
            m@.is_success_reply(request_id@, result),
            m@.is_reply_to(request_id@),
    {
        BackendMessage {
            message_type: String::from_str("response"),
            payload: null_value(),
            response_id: Some(request_id),
            result: Some(result),
            error: None,
        }
    }

    /// Create an error response to a request.
    #[must_use]
    pub fn error_response(request_id: String, error: &str) -> (m: BackendMessage)
        ensures
            m@.is_error_reply(request_id@, error@),
            m@.is_reply_to(request_id@),
    {
        BackendMessage {
            message_type: String::from_str("response"),
            payload: null_value(),
            response_id: Some(request_id),
            result: None,
            error: Some(String::from_str(error)),
        }
    }

    /// The envelope of this message as a JSON value.
    pub fn to_value(&self) -> (v: Value)
        ensures
            encodes_backend(v, self@),
    {
        let mut entries = new_map();
        map_insert(&mut entries, String::from_str("type"), string_value(self.message_type.clone()));
        map_insert(&mut entries, String::from_str("payload"), self.payload.clone());
        match &self.response_id {
            Some(id) => {
                map_insert(&mut entries, String::from_str("_responseId"), string_value(id.clone()));
            },
            None => {},
        }
        match &self.result {
            Some(result) => {
                map_insert(&mut entries, String::from_str("result"), result.clone());
            },
            None => {},
        }
        match &self.error {
            Some(error) => {
                map_insert(&mut entries, String::from_str("error"), string_value(error.clone()));
            },
            None => {},
        }
        proof {
            lemma_keys_distinct();
        }
        object_value(entries)
    }

    /// Read a message from its envelope.
    ///
    /// The value must be an object whose member `type` is a string. A missing
    /// `payload` reads as null; `_responseId`, `result` and `error` read as
    /// unset where they are missing or null.
    pub fn from_value(v: &Value) -> (r: std::result::Result<BackendMessage, EnvelopeDefect>)
        ensures
            match r {
                Ok(m) => backend_defect(*v) is None && decodes_backend(*v, m@),
                Err(d) => backend_defect(*v) == Some(d),
            },
    {
        let message_type = match read_type(v) {
            Ok(text) => text,
            Err(d) => {
                return Err(d);
            },
        };
        let response_id = match read_optional_string(v, "_responseId", EnvelopeDefect::InvalidId) {
            Ok(field) => field,
            Err(d) => {
                return Err(d);
            },
        };
        let error = match read_optional_string(v, "error", EnvelopeDefect::InvalidError) {
            Ok(field) => field,
            Err(d) => {
                return Err(d);
            },
        };
        let result = read_optional_value(v, "result");
        let payload = read_payload(v);
        Ok(BackendMessage { message_type, payload, response_id, result, error })
    }

    /// Encode this message as the text of its envelope.
    ///
    /// # Errors
    /// Returns `Serialization` where the envelope cannot be printed.
    pub fn to_json(&self) -> (r: std::result::Result<String, Error>)
        ensures
            backend_encoded(self@, r),
    {
        let v = self.to_value();
        match print_value(&v) {
            Ok(text) => {
                let r = Ok(text);
                assert(encodes_backend(v, self@));
                r
            },
            Err(cause) => {
                let r = Err(Error::Serialization(cause));
                assert(encodes_backend(v, self@));
                r
            },
        }
    }

    /// Decode a message from the text of its envelope.
    pub fn from_json(text: &str) -> (r: std::result::Result<BackendMessage, DecodeError>)
        ensures
            backend_decoded(text@, r),
    {
        match parse_value(text) {
            Err(cause) => Err(DecodeError::Syntax(cause)),
            Ok(v) => match BackendMessage::from_value(&v) {
                Ok(m) => Ok(m),
                Err(d) => Err(DecodeError::Envelope(d)),
            },
        }
    }
}

/// Reading back the envelope of a page-to-host message gives the message:
/// the envelope has no defect, and whatever it reads as is the message that
/// was written.
pub proof fn lemma_frontend_round_trip(
    v: Value,
    written: FrontendMessageView,
    read: FrontendMessageView,
)
    requires
        encodes_frontend(v, written),
        decodes_frontend(v, read),
    ensures
        frontend_defect(v) is None,
        read == written,
{
}

/// Reading back the envelope of a host-to-page message gives the message,
/// unless its result is set to null: a null member reads as an unset field.
pub proof fn lemma_backend_round_trip(
    v: Value,
    written: BackendMessageView,
    read: BackendMessageView,
)
    requires
        encodes_backend(v, written),
        decodes_backend(v, read),
        written.result matches Some(result) ==> !json_is_null(result),
    ensures
        backend_defect(v) is None,
        read == written,
{
}

/// Decoding the text of a message's envelope gives the message back, for a
/// text that parses to the envelope that it was printed from: whatever the
/// decoding of such a text results in is the message that was encoded.
pub proof fn lemma_frontend_text_round_trip(
    written: FrontendMessageView,
    v: Value,
    text: Seq<char>,
    r: std::result::Result<FrontendMessage, DecodeError>,
)
    requires
        encodes_frontend(v, written),
        json_text(v) == Some(text),
        json_parsed(text) == Some(v),
        frontend_decoded(text, r),
    ensures
        r matches Ok(read) && read@ == written,
{
    lemma_frontend_round_trip(v, written, r->Ok_0@);
}

/// Decoding the text of a message's envelope gives the message back, for a
/// text that parses to the envelope that it was printed from, unless the
/// message's result is set to null.
pub proof fn lemma_backend_text_round_trip(
    written: BackendMessageView,
    v: Value,
    text: Seq<char>,
    r: std::result::Result<BackendMessage, DecodeError>,
)
    requires
        encodes_backend(v, written),
        json_text(v) == Some(text),
        json_parsed(text) == Some(v),
        backend_decoded(text, r),
        written.result matches Some(result) ==> !json_is_null(result),
    ensures
        r matches Ok(read) && read@ == written,
{
    lemma_backend_round_trip(v, written, r->Ok_0@);
}

/// The text that hands an encoded message to the page: a call of the page's
/// receiver with the envelope as its only argument.
pub open spec fn receive_script(json: Seq<char>) -> Seq<char> {
    "window.__wpe_receive("@ + json + ")"@
}

/// The same call, made only where the page has defined the receiver.
pub open spec fn guarded_receive_script(json: Seq<char>) -> Seq<char> {
    "if(window.__wpe_receive){window.__wpe_receive("@ + json + ")}"@
}

/// An HTML document followed by the bridge code in a script element.
pub open spec fn with_bridge(html: Seq<char>) -> Seq<char> {
    html + "<script>"@ + JS_BRIDGE@ + "</script>"@
}

/// Whether a result is the script that delivers the message: the receiver
/// call around the text of the message's envelope, or the error of printing
/// the envelope.
pub open spec fn delivers(m: BackendMessageView, guarded: bool, r: std::result::Result<String, Error>) -> bool {
    exists|v: Value| #[trigger]
        encodes_backend(v, m) && match r {
            Ok(script) => match json_text(v) {
                Some(json) => script@ == if guarded {
                    guarded_receive_script(json)
                } else {
                    receive_script(json)
                },
                None => false,
            },
            Err(e) => json_text(v) is None && e is Serialization,
        }
}

/// The script that hands an encoded message to the page.
pub fn delivery_script(json: &str) -> (script: String)
    ensures
        script@ == receive_script(json@),
{
    String::from_str("window.__wpe_receive(").concat(json).concat(")")
}

/// The script that hands an encoded message to the page if the page has
/// defined its receiver, and does nothing otherwise.
pub fn guarded_delivery_script(json: &str) -> (script: String)
    ensures
        script@ == guarded_receive_script(json@),
{
    String::from_str("if(window.__wpe_receive){window.__wpe_receive(").concat(json).concat(")}")
}

impl BackendMessage {
    /// The script that delivers this message to the page. With `guarded` the
    /// script tests for the page's receiver first.
    ///
    /// # Errors
    /// Returns `Serialization` where the envelope cannot be printed.
    pub fn to_script(&self, guarded: bool) -> (r: std::result::Result<String, Error>)
        ensures
            delivers(self@, guarded, r),
    {
        let v = self.to_value();
        match print_value(&v) {
            Ok(json) => {
                let r = if guarded {
                    Ok(guarded_delivery_script(json.as_str()))
                } else {
                    Ok(delivery_script(json.as_str()))
                };
                assert(encodes_backend(v, self@));
                r
            },
            Err(cause) => {
                let r = Err(Error::Serialization(cause));
                assert(encodes_backend(v, self@));
                r
            },
        }
    }
}

/// What a handler's outcome for a message is answered with: the success reply
/// to the message's request id where the handler returned a value and the
/// message is a request, and nothing otherwise.
pub open spec fn answers(
    message: FrontendMessageView,
    outcome: Option<Value>,
    reply: Option<BackendMessage>,
) -> bool {
    match (message.request_id, outcome) {
        (Some(id), Some(result)) => reply matches Some(r) && r@.is_success_reply(id, result),
        _ => reply is None,
    }
}

/// Decide the reply to a message from what its handler returned.
///
/// A reply is made only for a request whose handler returned a value; a
/// notification is never replied to, whatever the handler returned.
pub fn reply_to(message: &FrontendMessage, outcome: Option<Value>) -> (reply: Option<
    BackendMessage,
>)
    ensures
        answers(message@, outcome, reply),
        reply matches Some(r) ==> message@.request_id matches Some(id) && r@.is_reply_to(id),
{
    match outcome {
        Some(result) => match &message.request_id {
            Some(id) => Some(BackendMessage::response(id.clone(), result)),
            None => None,
        },
        None => None,
    }
}

/// The requests among the first `n` messages that their handler answered, in
/// order: each with its request id and the handler's value.
pub open spec fn answered(
    messages: Seq<FrontendMessage>,
    outcomes: Seq<Option<Value>>,
    n: int,
) -> Seq<(Seq<char>, Value)>
    decreases n,
{
    if n <= 0 {
        Seq::empty()
    } else {
        let earlier = answered(messages, outcomes, n - 1);
        match (messages[n - 1]@.request_id, outcomes[n - 1]) {
            (Some(id), Some(result)) => earlier.push((id, result)),
            _ => earlier,
        }
    }
}

/// Whether the replies are the success replies to the given requests, one for
/// each and in the same order.
pub open spec fn replies_to(replies: Seq<BackendMessage>, requests: Seq<(Seq<char>, Value)>) -> bool {
    &&& replies.len() == requests.len()
    &&& forall|j: int|
        0 <= j < replies.len() ==> (#[trigger] replies[j])@.is_success_reply(
            requests[j].0,
            requests[j].1,
        )
}

/// Whether the replies are what the handler's outcomes ask for: `outcomes`
/// holds, for each message in turn, a value that the handler returned for it,
/// and the replies answer the requests among them.
pub open spec fn responded<F: Fn(&FrontendMessage) -> Option<Value>>(
    handler: F,
    messages: Seq<FrontendMessage>,
    outcomes: Seq<Option<Value>>,
    replies: Seq<BackendMessage>,
) -> bool {
    &&& outcomes.len() == messages.len()
    &&& forall|i: int|
        0 <= i < messages.len() ==> call_ensures(handler, (&messages[i],), #[trigger] outcomes[i])
    &&& replies_to(replies, answered(messages, outcomes, messages.len() as int))
}

/// Run the handler on each message in turn and collect the replies that are
/// owed: one for each request for which the handler returned a value.
pub fn respond_all<F: Fn(&FrontendMessage) -> Option<Value>>(
    messages: &Vec<FrontendMessage>,
    handler: F,
) -> (replies: Vec<BackendMessage>)
    requires
        forall|i: int| 0 <= i < messages@.len() ==> call_requires(handler, (&messages@[i],)),
    ensures
        exists|outcomes: Seq<Option<Value>>| #[trigger]
            responded(handler, messages@, outcomes, replies@),
{
    let mut replies: Vec<BackendMessage> = Vec::new();
    let ghost mut outcomes: Seq<Option<Value>> = Seq::empty();
    let mut i: usize = 0;
    while i < messages.len()
        invariant
            i <= messages@.len(),
            outcomes.len() == i,
            forall|k: int| 0 <= k < messages@.len() ==> call_requires(handler, (&messages@[k],)),
            forall|k: int|
                0 <= k < i ==> call_ensures(handler, (&messages@[k],), #[trigger] outcomes[k]),
            replies_to(replies@, answered(messages@, outcomes, i as int)),
        decreases messages@.len() - i,
    {
        let message = &messages[i];
        let outcome = handler(message);
        let ghost before = outcomes;
        proof {
            outcomes = outcomes.push(outcome);
            lemma_answered_prefix(messages@, before, outcomes, i as int);
        }
        match reply_to(message, outcome) {
            Some(reply) => {
                replies.push(reply);
            },
            None => {},
        }
        i = i + 1;
    }
    proof {
        assert(responded(handler, messages@, outcomes, replies@));
    }
    replies
}

/// The answered requests among the first `n` messages depend on the first `n`
/// outcomes only.
proof fn lemma_answered_prefix(
    messages: Seq<FrontendMessage>,
    a: Seq<Option<Value>>,
    b: Seq<Option<Value>>,
    n: int,
)
    requires
        0 <= n <= a.len(),
        n <= b.len(),
        forall|k: int| 0 <= k < n ==> a[k] == b[k],
    ensures
        answered(messages, a, n) == answered(messages, b, n),
    decreases n,
{
    if n > 0 {
        lemma_answered_prefix(messages, a, b, n - 1);
    }
}

/// IPC bridge for communication between the host and the page's scripts: the
/// messages that arrived and wait for the host's next poll.
#[derive(Debug)]
pub struct IpcBridge {
    pending_messages: VecDeque<FrontendMessage>,
}

impl View for IpcBridge {
    type V = Seq<FrontendMessage>;

    /// The pending messages, oldest first.
    closed spec fn view(&self) -> Seq<FrontendMessage> {
        self.pending_messages@
    }
}

impl IpcBridge {
    /// Create a new IPC bridge, with nothing pending.
    #[must_use]
    pub fn new() -> (bridge: Self)
        ensures
            bridge@ == Seq::<FrontendMessage>::empty(),
    {
        IpcBridge { pending_messages: VecDeque::new() }
    }

    /// Get the JavaScript bridge code that should be injected into pages.
    #[must_use]
    pub fn js_bridge_code() -> (code: &'static str)
        ensures
            code@ == JS_BRIDGE@,
    {
        JS_BRIDGE
    }

    /// Inject the IPC bridge into HTML content: the bridge code follows the
    /// document in a script element.
    #[must_use]
    pub fn inject_bridge(html: &str) -> (document: String)
        ensures
            document@ == with_bridge(html@),
    {
        String::from_str(html).concat("<script>").concat(JS_BRIDGE).concat("</script>")
    }

    /// Take in a message that arrived from the page.
    pub fn enqueue(&mut self, message: FrontendMessage)
        ensures
            final(self)@ == old(self)@.push(message),
    {
        self.pending_messages.push_back(message);
    }

    /// Poll for pending messages from the frontend: all of them, oldest first.
    /// Nothing is pending afterwards.
    pub fn poll(&mut self) -> (messages: Vec<FrontendMessage>)
        ensures
            messages@ == old(self)@,
            final(self)@ == Seq::<FrontendMessage>::empty(),
    {
        let ghost before = self.pending_messages@;
        let mut messages: Vec<FrontendMessage> = Vec::new();
        loop
            invariant
                messages@ + self.pending_messages@ == before,
            ensures
                self.pending_messages@.len() == 0,
            decreases self.pending_messages@.len(),
        {
            match self.pending_messages.pop_front() {
                Some(message) => {
                    proof {
                        assert(messages@.push(message) + self.pending_messages@ =~= before);
                    }
                    messages.push(message);
                },
                None => {
                    break ;
                },
            }
        }
        proof {
            assert(messages@ =~= before);
            assert(self.pending_messages@ =~= Seq::<FrontendMessage>::empty());
        }
        messages
    }

    /// Prepare a message for the frontend: the script whose evaluation in the
    /// page delivers it.
    ///
    /// # Errors
    /// Returns an error if the message could not be serialized.
    pub fn send(&self, message: &BackendMessage) -> (r: std::result::Result<String, Error>)
        ensures
            delivers(message@, false, r),
    {
        message.to_script(false)
    }

    /// Prepare a notification of the given type and payload for the frontend.
    ///
    /// # Errors
    /// Returns an error if the message could not be serialized.
    pub fn send_typed(&self, message_type: &str, payload: Value) -> (r: std::result::Result<
        String,
        Error,
    >)
        ensures
            delivers(
                BackendMessageView {
                    message_type: message_type@,
                    payload: payload,
                    response_id: None,
                    result: None,
                    error: None,
                },
                false,
                r,
            ),
    {
        let message = BackendMessage::new(message_type, payload);
        self.send(&message)
    }

    /// Handle the pending messages and collect the replies.
    ///
    /// The handler receives each message in turn and returns an optional
    /// value. The replies answer, in order, the requests for which it returned
    /// one; they are for the caller to send.
    pub fn handle<F: Fn(&FrontendMessage) -> Option<Value>>(&mut self, handler: F) -> (replies: Vec<
        BackendMessage,
    >)
        requires
            forall|i: int| 0 <= i < old(self)@.len() ==> call_requires(handler, (&old(self)@[i],)),
        ensures
            final(self)@ == Seq::<FrontendMessage>::empty(),
            exists|outcomes: Seq<Option<Value>>| #[trigger]
                responded(handler, old(self)@, outcomes, replies@),
    {
        let messages = self.poll();
        respond_all(&messages, handler)
    }
}

impl Default for IpcBridge {
    fn default() -> (bridge: Self)
        ensures
            bridge@ == Seq::<FrontendMessage>::empty(),
    {
        IpcBridge::new()
    }
}

/// Typed message handler for convenient message routing.
pub trait MessageHandler {
    /// The message type this handler responds to.
    fn message_type(&self) -> &str;

    /// Handle the message and return a response.
    fn handle(&self, payload: Value) -> std::result::Result<Value, Error>;
}

} // verus!
