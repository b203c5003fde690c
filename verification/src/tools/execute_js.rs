//! Running a script in a page and turning its reply into an answer.
use vstd::prelude::*;
use vstd::string::StringExecFns;
use crate::error::{concat, Error, ErrorView};
use crate::json::{is_json_text, json_text_parses};
use crate::resolve::{emit_target_spec, WebviewLookup};
use crate::tools::reply::{
    answers_failure, dispatch_to, fails_with, failure_response, resolve_tool_webview, success_response, tool_webview_spec,
    EventDispatch, JsReply, ReplyOutcome, ResponseData, SocketResponse,
};
use crate::window::label_or_main;

verus! {

/// The result of an executed script.
pub enum ScriptValue {
    /// Text the page marked as JSON and that parses as JSON: passed on as
    /// that JSON value.
    Json(String),
    /// Text passed on as a JSON string.
    Text(String),
}

/// The answer to an execute-js request.
pub struct ExecuteJsResponse {
    pub result: ScriptValue,
    /// The page's name for the result's type.
    pub result_type: String,
}

/// A request to run a script in a page.
pub struct ExecuteJsRequest {
    pub window_label: Option<String>,
    /// The script's source.
    pub code: String,
    /// How long to wait for the result; 30000 ms when absent.
    pub timeout_ms: Option<u64>,
}

/// Plans an execute-js request: the webview must exist (else
/// `Anyhow("Webview not found: <label>")`); the script is sent as an
/// "execute-js" event to the label's emit target, and the reply is awaited as
/// "execute-js-response" for the request's timeout, 30000 ms by default.
pub fn plan_execute_js(req: &ExecuteJsRequest, lookup: &WebviewLookup) -> (r: Result<
    EventDispatch,
    Error,
>)
    ensures
        ({
            let label = label_or_main(req.window_label);
            match tool_webview_spec(req.window_label, lookup) {
                None => r is Err && r->Err_0@ == ErrorView::Anyhow("Webview not found: "@ + label),
                Some(_) => {
                    &&& r is Ok
                    &&& r->Ok_0.target@ == emit_target_spec(label, lookup)
                    &&& r->Ok_0.event@ == "execute-js"@
                    &&& r->Ok_0.response_event@ == "execute-js-response"@
                    &&& r->Ok_0.timeout_ms == (match req.timeout_ms {
                        Some(t) => t,
                        None => 30000,
                    })
                },
            }
        }),
{
    let (label, _webview) = resolve_tool_webview(&req.window_label, lookup)?;
    let timeout_ms = match req.timeout_ms {
        Some(t) => t,
        None => 30000,
    };
    Ok(dispatch_to(label.as_str(), lookup, "execute-js", "execute-js-response", timeout_ms))
}

/// The result text of a reply: its "result", or a placeholder when it has none.
pub open spec fn result_text(reply: &JsReply) -> Seq<char> {
    match reply.result {
        Some(s) => s@,
        None => "[Result could not be stringified]"@,
    }
}

/// The result type of a reply: its "type", or "unknown".
pub open spec fn result_type_text(reply: &JsReply) -> Seq<char> {
    match reply.result_type {
        Some(s) => s@,
        None => "unknown"@,
    }
}

/// The result is passed on as JSON: the page marked it so and it parses.
pub open spec fn result_is_json(reply: &JsReply) -> bool {
    reply.is_json == Some(true) && json_text_parses(result_text(reply))
}

/// `resp` answers a reply without an error: success, carrying the result
/// text (as JSON when [`result_is_json`]) and the result type.
pub open spec fn script_answer(resp: SocketResponse, rep: &JsReply) -> bool {
    &&& resp.success
    &&& resp.error is None
    &&& resp.id is None
    &&& resp.data is Some
    &&& resp.data->0 is Script
    &&& resp.data->0->Script_0.result_type@ == result_type_text(rep)
    &&& if result_is_json(rep) {
        &&& resp.data->0->Script_0.result is Json
        &&& resp.data->0->Script_0.result->Json_0@ == result_text(rep)
    } else {
        &&& resp.data->0->Script_0.result is Text
        &&& resp.data->0->Script_0.result->Text_0@ == result_text(rep)
    }
}

/// Turns the outcome of an execute-js request into its answer:
/// - no reply in time: a failed answer "Timeout waiting for JS execution: "
///   and the waiting side's message;
/// - a reply that is not JSON: `Anyhow("Failed to parse JS response: ...")`;
/// - a reply with an "error" string: a failed answer with that error;
/// - otherwise a successful answer with the result and its type.
pub fn finish_execute_js(outcome: ReplyOutcome) -> (r: Result<SocketResponse, Error>)
    ensures
        match outcome {
            ReplyOutcome::TimedOut(e) => answers_failure(
                r,
                "Timeout waiting for JS execution: "@ + e@,
            ),
            ReplyOutcome::Unparsable(e) => fails_with(r, "Failed to parse JS response: "@ + e@),
            ReplyOutcome::Received(rep) => match rep.error {
                Some(e) => answers_failure(r, e@),
                None => r is Ok && script_answer(r->Ok_0, &rep),
            },
        },
{
    match outcome {
        ReplyOutcome::TimedOut(e) => Ok(
            failure_response(concat("Timeout waiting for JS execution: ", e.as_str())),
        ),
        ReplyOutcome::Unparsable(e) => Err(
            Error::Anyhow(concat("Failed to parse JS response: ", e.as_str())),
        ),
        ReplyOutcome::Received(rep) => {
            if let Some(e) = rep.error {
                return Ok(failure_response(e));
            }
            let text = match rep.result {
                Some(s) => s,
                None => String::from_str("[Result could not be stringified]"),
            };
            let result_type = match rep.result_type {
                Some(s) => s,
                None => String::from_str("unknown"),
            };
            let marked_json = match rep.is_json {
                Some(b) => b,
                None => false,
            };
            let result = if marked_json && is_json_text(text.as_str()) {
                ScriptValue::Json(text)
            } else {
                ScriptValue::Text(text)
            };
            Ok(success_response(ResponseData::Script(ExecuteJsResponse { result, result_type })))
        },
    }
}

} // verus!
