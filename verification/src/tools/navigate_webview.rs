//! Navigation requests: load a URL, reload, read the URL, go back or forward.
use vstd::prelude::*;
use vstd::string::StringExecFns;
use crate::error::{concat, concat3, Error, ErrorView};
use crate::resolve::{emit_target_spec, WebviewChoice, WebviewLookup};
use crate::text::str_equal;
use crate::tools::reply::{
    dispatch_to, failure_response, failure_with, resolve_tool_webview, success_response,
    tool_webview_spec, EventDispatch, ResponseData, SocketResponse,
};
use crate::window::label_or_main;

verus! {

/// A navigation request.
pub struct NavigateRequest {
    pub window_label: Option<String>,
    /// One of "navigate", "reload", "get_url", "back" and "forward".
    pub action: String,
    /// The URL to load, for "navigate".
    pub url: Option<String>,
}

/// What to do for a navigation request.
pub enum NavigatePlan {
    /// Load `url` in the webview.
    Navigate { webview: WebviewChoice, url: String },
    /// Reload the webview's page.
    Reload { webview: WebviewChoice },
    /// Read the webview's URL.
    GetUrl { webview: WebviewChoice },
    /// Ask the page to go back or forward (`action`) by the event in
    /// `dispatch`, whose payload is `{"action": <action>}`.
    History { dispatch: EventDispatch, action: String },
    /// Answer at once.
    Respond(SocketResponse),
}

/// Plans a navigation request. The webview must exist (else
/// `Anyhow("Webview not found: <label>")`); then the action decides:
/// "navigate" needs a URL (else `Anyhow("'url' is required for navigate
/// action")`), "reload" and "get_url" act on the webview, "back" and
/// "forward" go to the page, and any other action is answered with a failure
/// that lists the valid ones.
pub fn plan_navigate(req: &NavigateRequest, lookup: &WebviewLookup) -> (r: Result<
    NavigatePlan,
    Error,
>)
    ensures
        ({
            let label = label_or_main(req.window_label);
            let a = req.action@;
            match tool_webview_spec(req.window_label, lookup) {
                None => r is Err && r->Err_0@ == ErrorView::Anyhow("Webview not found: "@ + label),
                Some(w) => if a == "navigate"@ {
                    match req.url {
                        None => r is Err && r->Err_0@ == ErrorView::Anyhow(
                            "'url' is required for navigate action"@,
                        ),
                        Some(u) => r == Ok::<NavigatePlan, Error>(
                            NavigatePlan::Navigate { webview: w, url: u },
                        ),
                    }
                } else if a == "reload"@ {
                    r == Ok::<NavigatePlan, Error>(NavigatePlan::Reload { webview: w })
                } else if a == "get_url"@ {
                    r == Ok::<NavigatePlan, Error>(NavigatePlan::GetUrl { webview: w })
                } else if a == "back"@ || a == "forward"@ {
                    &&& r is Ok
                    &&& r->Ok_0 is History
                    &&& r->Ok_0->History_dispatch.target@ == emit_target_spec(label, lookup)
                    &&& r->Ok_0->History_dispatch.event@ == "navigate-webview"@
                    &&& r->Ok_0->History_dispatch.response_event@
                        == "navigate-webview-response"@
                    &&& r->Ok_0->History_dispatch.timeout_ms == 5000
                    &&& r->Ok_0->History_action@ == a
                } else {
                    &&& r is Ok
                    &&& r->Ok_0 is Respond
                    &&& failure_with(
                        r->Ok_0->Respond_0,
                        "Unknown action '"@ + a
                            + "'. Valid actions: navigate, reload, get_url, back, forward"@,
                    )
                },
            }
        }),
{
    let (label, webview) = resolve_tool_webview(&req.window_label, lookup)?;
    let a = req.action.as_str();
    if str_equal(a, "navigate") {
        match &req.url {
            None => Err(Error::Anyhow(String::from_str("'url' is required for navigate action"))),
            Some(u) => Ok(NavigatePlan::Navigate { webview, url: u.clone() }),
        }
    } else if str_equal(a, "reload") {
        Ok(NavigatePlan::Reload { webview })
    } else if str_equal(a, "get_url") {
        Ok(NavigatePlan::GetUrl { webview })
    } else if str_equal(a, "back") || str_equal(a, "forward") {
        Ok(
            NavigatePlan::History {
                dispatch: dispatch_to(
                    label.as_str(),
                    lookup,
                    "navigate-webview",
                    "navigate-webview-response",
                    5000,
                ),
                action: req.action.clone(),
            },
        )
    } else {
        Ok(
            NavigatePlan::Respond(
                failure_response(
                    concat3(
                        "Unknown action '",
                        a,
                        "'. Valid actions: navigate, reload, get_url, back, forward",
                    ),
                ),
            ),
        )
    }
}

/// The answer once `url` was loaded.
pub fn navigated(url: String) -> (r: SocketResponse)
    ensures
        r.success,
        r.error is None,
        r.id is None,
        r.data == Some(ResponseData::Navigated { url }),
{
    success_response(ResponseData::Navigated { url })
}

/// The answer once the page was reloaded.
pub fn reloaded() -> (r: SocketResponse)
    ensures
        r.success,
        r.error is None,
        r.id is None,
        r.data == Some(ResponseData::Reloaded),
{
    success_response(ResponseData::Reloaded)
}

/// The answer to "get_url": the webview's URL, or the empty text when it
/// could not be read.
pub fn current_url(url: Option<String>) -> (r: SocketResponse)
    ensures
        r.success,
        r.error is None,
        r.id is None,
        r.data is Some,
        r.data->0 is CurrentUrl,
        r.data->0->CurrentUrl_url@ == (match url {
            Some(s) => s@,
            None => Seq::<char>::empty(),
        }),
{
    let u = match url {
        Some(s) => s,
        None => String::new(),
    };
    success_response(ResponseData::CurrentUrl { url: u })
}

/// The answer when the page did not reply to "back" or "forward" in time.
pub fn navigation_timed_out(detail: &str) -> (r: SocketResponse)
    ensures
        failure_with(r, "Timeout waiting for navigation: "@ + detail@),
{
    failure_response(concat("Timeout waiting for navigation: ", detail))
}

/// A step of a navigation that can fail.
pub enum NavigateStep {
    /// Parsing this URL.
    ParseUrl(String),
    /// Loading the URL.
    Navigate,
    /// Reloading the page.
    Reload,
    /// Sending the "navigate-webview" event.
    Emit,
}

/// The error for a failed navigation step, with the failing call's message.
pub fn navigate_failed(step: NavigateStep, detail: &str) -> (r: Error)
    ensures
        r@ == ErrorView::Anyhow(match step {
            NavigateStep::ParseUrl(u) => "Invalid URL '"@ + u@ + "': "@ + detail@,
            NavigateStep::Navigate => "Failed to navigate: "@ + detail@,
            NavigateStep::Reload => "Failed to reload: "@ + detail@,
            NavigateStep::Emit => "Failed to emit navigate-webview event: "@ + detail@,
        }),
{
    match step {
        NavigateStep::ParseUrl(u) => {
            let mut m = concat3("Invalid URL '", u.as_str(), "': ");
            m.append(detail);
            Error::Anyhow(m)
        },
        NavigateStep::Navigate => Error::Anyhow(concat("Failed to navigate: ", detail)),
        NavigateStep::Reload => Error::Anyhow(concat("Failed to reload: ", detail)),
        NavigateStep::Emit => Error::Anyhow(
            concat("Failed to emit navigate-webview event: ", detail),
        ),
    }
}

} // verus!
