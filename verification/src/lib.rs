//! Embedding runtime for a WPE WebKit view: the message protocol between page
//! scripts and the host, the event queues fed by engine signals, the shared
//! frame buffer, and the rules that order creation and teardown of the
//! engine's handles.

pub mod engine;
pub mod error;
pub mod input;
pub mod ipc;
pub mod json;
pub mod lifecycle;
pub mod native;
pub mod queue;
pub mod renderer;
pub mod text;
pub mod webview;
pub mod window;
pub mod x11_window;

pub use error::{Error, Result};
pub use input::{InputSource, Modifiers, MouseButton};
pub use ipc::{BackendMessage, FrontendMessage, IpcBridge};
pub use native::{LoadState, NavigationEvent};
pub use renderer::{RenderContext, SoftwareRenderer};
pub use webview::WebViewSettings;
pub use window::WpeEvent;
