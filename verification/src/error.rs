//! The errors that the embedding runtime reports.

use crate::json::error_text;
use serde_json::Error as JsonError;
use vstd::prelude::*;
use vstd::std_specs::convert::FromSpecImpl;
use vstd::string::StringExecFns;

verus! {

/// What can go wrong while a view is created, driven or fed.
#[derive(Debug)]
pub enum Error {
    /// The platform display is not available. This is the expected way for
    /// one backend to decline, so that another can be tried.
    InitFailed,
    /// The engine did not hand out a web view or one of its parts.
    WebViewCreationFailed,
    /// The rendering backend could not be created.
    BackendCreationFailed,
    /// A URL or a document was rejected before any call into the engine.
    InvalidUrl(String),
    /// A script cannot be handed to the engine.
    JavaScriptError(String),
    /// A message could not be delivered.
    IpcError(String),
    /// A message envelope could not be written or read.
    Serialization(JsonError),
    /// The host window did not give out its handles.
    WindowHandle,
    /// The presentation surface could not be created.
    RendererCreationFailed(String),
    /// The presentation surface rejected a frame; the next poll tries again.
    RenderFailed(String),
    /// No platform backend is usable.
    NoDisplay,
    /// The X11 backend failed.
    X11Error(String),
}

impl Error {
    /// The sentence that the description of this error begins with.
    pub open spec fn heading(self) -> Seq<char> {
        match self {
            Error::InitFailed => "WPE initialization failed"@,
            Error::WebViewCreationFailed => "Failed to create web view"@,
            Error::BackendCreationFailed => "Failed to create backend"@,
            Error::InvalidUrl(_) => "Invalid URL: "@,
            Error::JavaScriptError(_) => "JavaScript evaluation failed: "@,
            Error::IpcError(_) => "IPC error: "@,
            Error::Serialization(_) => "Serialization error: "@,
            Error::WindowHandle => "Window handle error"@,
            Error::RendererCreationFailed(_) => "Failed to create renderer: "@,
            Error::RenderFailed(_) => "Failed to present frame: "@,
            Error::NoDisplay => "No display available"@,
            Error::X11Error(_) => "X11 error: "@,
        }
    }

    /// The detail that follows the sentence, where the error carries its
    /// detail as a text: nothing for an error without detail. The detail of a
    /// serialization error is the words of its cause, which are not known
    /// here.
    pub open spec fn detail(self) -> Option<Seq<char>> {
        match self {
            Error::InvalidUrl(detail) => Some(detail@),
            Error::JavaScriptError(detail) => Some(detail@),
            Error::IpcError(detail) => Some(detail@),
            Error::RendererCreationFailed(detail) => Some(detail@),
            Error::RenderFailed(detail) => Some(detail@),
            Error::X11Error(detail) => Some(detail@),
            Error::Serialization(_) => None,
            _ => Some(Seq::empty()),
        }
    }

    /// Whether a text is the description of this error: the sentence followed
    /// by the detail, or, for a serialization error, the sentence followed by
    /// some words.
    pub open spec fn described_by(self, text: Seq<char>) -> bool {
        match self.detail() {
            Some(detail) => text == self.heading() + detail,
            None => self.heading().is_prefix_of(text),
        }
    }

    /// Describe this error in words.
    pub fn message(&self) -> (text: String)
        ensures
            self.described_by(text@),
    {
        let text = match self {
            Error::InitFailed => String::from_str("WPE initialization failed"),
            Error::WebViewCreationFailed => String::from_str("Failed to create web view"),
            Error::BackendCreationFailed => String::from_str("Failed to create backend"),
            Error::InvalidUrl(detail) => String::from_str("Invalid URL: ").concat(detail.as_str()),
            Error::JavaScriptError(detail) => String::from_str(
                "JavaScript evaluation failed: ",
            ).concat(detail.as_str()),
            Error::IpcError(detail) => String::from_str("IPC error: ").concat(detail.as_str()),
            Error::Serialization(cause) => {
                let detail = error_text(cause);
                let text = String::from_str("Serialization error: ").concat(detail.as_str());
                proof {
                    assert(text@.subrange(0, self.heading().len() as int) =~= self.heading());
                }
                text
            },
            Error::WindowHandle => String::from_str("Window handle error"),
            Error::RendererCreationFailed(detail) => String::from_str(
                "Failed to create renderer: ",
            ).concat(detail.as_str()),
            Error::RenderFailed(detail) => String::from_str("Failed to present frame: ").concat(
                detail.as_str(),
            ),
            Error::NoDisplay => String::from_str("No display available"),
            Error::X11Error(detail) => String::from_str("X11 error: ").concat(detail.as_str()),
        };
        proof {
            if self.detail() == Some(Seq::<char>::empty()) {
                assert(text@ =~= self.heading() + Seq::<char>::empty());
            }
        }
        text
    }
}

impl From<JsonError> for Error {
    fn from(cause: JsonError) -> (e: Error) {
        Error::Serialization(cause)
    }
}

impl FromSpecImpl<JsonError> for Error {
    open spec fn obeys_from_spec() -> bool {
        true
    }

    open spec fn from_spec(cause: JsonError) -> Error {
        Error::Serialization(cause)
    }
}

/// The result of an operation of this library.
pub type Result<T> = std::result::Result<T, Error>;

} // verus!
