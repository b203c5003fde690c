//! Reading and changing a page's localStorage.
use vstd::prelude::*;
use vstd::string::StringExecFns;
use crate::error::{concat, Error, ErrorView};
use crate::resolve::{emit_target_spec, WebviewLookup};
use crate::text::str_equal;
use crate::tools::reply::{
    answers_failure, dispatch_to, fails_with, failure_response, failure_with, resolve_tool_webview,
    success_response, success_with, tool_webview_spec,
    EventDispatch, ReplyOutcome, ResponseData, SocketResponse,
};
use crate::window::label_or_main;

verus! {

/// A localStorage request.
pub struct LocalStorageRequest {
    /// One of "get", "set", "remove", "clear" and "keys".
    pub action: String,
    pub key: Option<String>,
    pub value: Option<String>,
    pub window_label: Option<String>,
}

/// Why a localStorage request is refused before anything is sent, if it is.
pub open spec fn local_storage_refusal(req: &LocalStorageRequest) -> Option<Seq<char>> {
    let a = req.action@;
    if a == "get"@ {
        None
    } else if a == "remove"@ {
        if req.key is None {
            Some("Key is required for remove operations"@)
        } else {
            None
        }
    } else if a == "set"@ {
        if req.key is None || req.value is None {
            Some("Both key and value are required for set operation"@)
        } else {
            None
        }
    } else if a == "clear"@ || a == "keys"@ {
        None
    } else {
        Some("Unsupported localStorage action: "@ + a)
    }
}

/// Checks a localStorage request: "remove" needs a key, "set" needs a key and
/// a value, "get", "clear" and "keys" need nothing, any other action is
/// unsupported. Returns the reason for refusing it, if any.
pub fn check_local_storage_request(req: &LocalStorageRequest) -> (r: Option<String>)
    ensures
        match local_storage_refusal(req) {
            Some(m) => r matches Some(s) && s@ == m,
            None => r is None,
        },
{
    let a = req.action.as_str();
    if str_equal(a, "get") {
        None
    } else if str_equal(a, "remove") {
        if req.key.is_none() {
            Some(String::from_str("Key is required for remove operations"))
        } else {
            None
        }
    } else if str_equal(a, "set") {
        if req.key.is_none() || req.value.is_none() {
            Some(String::from_str("Both key and value are required for set operation"))
        } else {
            None
        }
    } else if str_equal(a, "clear") || str_equal(a, "keys") {
        None
    } else {
        Some(concat("Unsupported localStorage action: ", a))
    }
}

/// What to do for a localStorage request.
pub enum LocalStoragePlan {
    /// Answer at once.
    Respond(SocketResponse),
    /// Send the request to the page and await its reply.
    Dispatch(EventDispatch),
}

/// Plans a localStorage request: a refused request is answered at once with
/// a failure naming the reason; otherwise the webview must exist (else
/// `Anyhow("Webview not found: <label>")`), and the request is sent as a
/// "get-local-storage" event to the label's emit target, its reply awaited
/// as "get-local-storage-response" for 5000 ms.
pub fn plan_local_storage(req: &LocalStorageRequest, lookup: &WebviewLookup) -> (r: Result<
    LocalStoragePlan,
    Error,
>)
    ensures
        ({
            let label = label_or_main(req.window_label);
            match local_storage_refusal(req) {
                Some(m) => r is Ok && r->Ok_0 is Respond && failure_with(r->Ok_0->Respond_0, m),
                None => match tool_webview_spec(req.window_label, lookup) {
                    None => r is Err && r->Err_0@ == ErrorView::Anyhow(
                        "Webview not found: "@ + label,
                    ),
                    Some(_) => {
                        &&& r is Ok
                        &&& r->Ok_0 is Dispatch
                        &&& r->Ok_0->Dispatch_0.target@ == emit_target_spec(label, lookup)
                        &&& r->Ok_0->Dispatch_0.event@ == "get-local-storage"@
                        &&& r->Ok_0->Dispatch_0.response_event@ == "get-local-storage-response"@
                        &&& r->Ok_0->Dispatch_0.timeout_ms == 5000
                    },
                },
            }
        }),
{
    if let Some(reason) = check_local_storage_request(req) {
        return Ok(LocalStoragePlan::Respond(failure_response(reason)));
    }
    let (label, _webview) = resolve_tool_webview(&req.window_label, lookup)?;
    Ok(
        LocalStoragePlan::Dispatch(
            dispatch_to(
                label.as_str(),
                lookup,
                "get-local-storage",
                "get-local-storage-response",
                5000,
            ),
        ),
    )
}

/// Turns the outcome of a localStorage request into its answer:
/// - no reply in time: a failed answer "Timeout waiting for localStorage
///   response: " and the waiting side's message;
/// - a reply that is not JSON: `Anyhow("Failed to parse localStorage
///   response: ...")`;
/// - a reply with an "error" string: a failed answer with that error;
/// - otherwise a successful answer carrying the reply's "data" (null when
///   absent).
pub fn finish_local_storage(outcome: ReplyOutcome) -> (r: Result<SocketResponse, Error>)
    ensures
        match outcome {
            ReplyOutcome::TimedOut(e) => answers_failure(
                r,
                "Timeout waiting for localStorage response: "@ + e@,
            ),
            ReplyOutcome::Unparsable(e) => fails_with(
                r,
                "Failed to parse localStorage response: "@ + e@,
            ),
            ReplyOutcome::Received(rep) => match rep.error {
                Some(e) => answers_failure(r, e@),
                None => r is Ok && success_with(r->Ok_0, ResponseData::Page(rep.data)),
            },
        },
{
    match outcome {
        ReplyOutcome::TimedOut(e) => Ok(
            failure_response(concat("Timeout waiting for localStorage response: ", e.as_str())),
        ),
        ReplyOutcome::Unparsable(e) => Err(
            Error::Anyhow(concat("Failed to parse localStorage response: ", e.as_str())),
        ),
        ReplyOutcome::Received(rep) => {
            match rep.error {
                Some(e) => Ok(failure_response(e)),
                None => Ok(success_response(ResponseData::Page(rep.data))),
            }
        },
    }
}

} // verus!
