//! Typing into a webview, and the ping round trip.
use vstd::prelude::*;
use crate::error::{concat, Error, ErrorView};
use crate::resolve::{WebviewChoice, WebviewLookup};
use crate::tools::reply::{resolve_tool_webview, tool_webview_spec};
use crate::window::label_or_main;

verus! {

/// A ping.
pub struct PingRequest {
    pub value: Option<String>,
}

/// The answer to a ping.
pub struct PingResponse {
    pub value: Option<String>,
}

/// Answers a ping with the value it carried.
pub fn ping(payload: PingRequest) -> (r: PingResponse)
    ensures
        r.value == payload.value,
{
    PingResponse { value: payload.value }
}

/// A request to type text into a webview.
pub struct TextInputRequest {
    pub text: String,
    /// Pause between characters; 20 ms when absent.
    pub delay_ms: Option<u64>,
    /// Pause before the first character; 500 ms when absent.
    pub initial_delay_ms: Option<u64>,
    pub window_label: Option<String>,
}

/// The answer to a text input request.
pub struct TextInputResponse {
    pub chars_typed: usize,
    pub duration_ms: u64,
}

/// How to carry out a text input request.
pub struct TextInputPlan {
    /// The webview that receives the keystrokes.
    pub webview: WebviewChoice,
    pub text: String,
    /// Pause between characters.
    pub delay_ms: u64,
    /// Pause before typing, when there is one.
    pub initial_wait_ms: Option<u64>,
}

/// Plans a text input request: the webview must exist (else
/// `Anyhow("Webview not found: <label>")`); the pause between characters is
/// the request's or 20 ms, and the pause before typing the request's or
/// 500 ms, skipped when it is zero.
pub fn plan_text_input(req: TextInputRequest, lookup: &WebviewLookup) -> (r: Result<
    TextInputPlan,
    Error,
>)
    ensures
        match tool_webview_spec(req.window_label, lookup) {
            None => r is Err && r->Err_0@ == ErrorView::Anyhow(
                "Webview not found: "@ + label_or_main(req.window_label),
            ),
            Some(w) => {
                let initial = match req.initial_delay_ms {
                    Some(d) => d,
                    None => 500,
                };
                &&& r is Ok
                &&& r->Ok_0.webview == w
                &&& r->Ok_0.text == req.text
                &&& r->Ok_0.delay_ms == (match req.delay_ms {
                    Some(d) => d,
                    None => 20,
                })
                &&& r->Ok_0.initial_wait_ms == (if initial > 0 {
                    Some(initial)
                } else {
                    None
                })
            },
        },
{
    let (_label, webview) = resolve_tool_webview(&req.window_label, lookup)?;
    let delay_ms = match req.delay_ms {
        Some(d) => d,
        None => 20,
    };
    let initial = match req.initial_delay_ms {
        Some(d) => d,
        None => 500,
    };
    let initial_wait_ms = if initial > 0 {
        Some(initial)
    } else {
        None
    };
    Ok(TextInputPlan { webview, text: req.text, delay_ms, initial_wait_ms })
}

/// The error when injecting the keystrokes failed, with the failing call's
/// message.
pub fn text_injection_failed(detail: &str) -> (r: Error)
    ensures
        r@ == ErrorView::Anyhow("Native text injection failed: "@ + detail@),
{
    Error::Anyhow(concat("Native text injection failed: ", detail))
}

/// The answer once the text was typed.
pub fn text_input_done(chars_typed: usize, duration_ms: u64) -> (r: TextInputResponse)
    ensures
        r.chars_typed == chars_typed,
        r.duration_ms == duration_ms,
{
    TextInputResponse { chars_typed, duration_ms }
}

} // verus!
