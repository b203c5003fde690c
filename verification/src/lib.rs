//! Decision logic of an MCP debugging bridge for desktop applications:
//! which window or webview a request addresses, where events are sent,
//! how requests are validated, and how replies from the page become responses.
use vstd::prelude::*;

pub mod error;
pub mod input;
pub mod json;
pub mod laws;
pub mod resolution_laws;
pub mod resolve;
pub mod screenshot;
pub mod text;
pub mod tool_laws;
pub mod tools;
pub mod window;

verus! {

/// Stores the configured fallback webview label.
pub struct WebviewFallbackConfig {
    pub label: Option<String>,
}

} // verus!
