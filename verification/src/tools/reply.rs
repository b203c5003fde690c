//! Answers sent back over the socket, and the replies a page sends to events.
use vstd::prelude::*;
use vstd::string::StringExecFns;
use crate::error::{concat, Error, ErrorView};
use crate::json::json_text_parses;
use crate::resolve::{get_emit_target, get_webview_for_eval, emit_target_spec, webview_resolution, WebviewChoice, WebviewLookup};
use crate::tools::execute_js::ExecuteJsResponse;
use crate::window::{label_or_main, window_label_or_main};

verus! {

/// The data an answer carries.
pub enum ResponseData {
    /// `{"action": "navigate", "url": <url>}`
    Navigated { url: String },
    /// `{"action": "reload"}`
    Reloaded,
    /// `{"url": <url>}`
    CurrentUrl { url: String },
    /// `{"result": <result>, "type": <result_type>}`
    Script(ExecuteJsResponse),
    /// JSON from the page, as JSON text, passed on as the value it denotes;
    /// JSON null where it is `None`.
    Page(Option<String>),
}

/// An answer sent back over the socket.
pub struct SocketResponse {
    pub success: bool,
    pub data: Option<ResponseData>,
    pub error: Option<String>,
    pub id: Option<String>,
}

/// The fields of a page's reply that the tools read, as [`read_reply`] gives
/// them.
pub struct JsReply {
    /// "error", when it is a string.
    pub error: Option<String>,
    /// "result", when it is a string.
    pub result: Option<String>,
    /// "type", when it is a string.
    pub result_type: Option<String>,
    /// "isJson", when it is a boolean.
    pub is_json: Option<bool>,
    /// "data", of any JSON type, as JSON text.
    pub data: Option<String>,
}

/// How waiting for a page's reply ended.
pub enum ReplyOutcome {
    /// A reply arrived and parsed as JSON.
    Received(JsReply),
    /// A reply arrived that does not parse as JSON; the parser's message.
    Unparsable(String),
    /// No reply arrived in time; the waiting side's message.
    TimedOut(String),
}

/// An event to send to a page, and how to wait for its reply.
pub struct EventDispatch {
    /// The label the event is sent to.
    pub target: String,
    /// The event's name.
    pub event: String,
    /// The name of the reply event.
    pub response_event: String,
    /// How long to wait for the reply.
    pub timeout_ms: u64,
}

/// The member `key` of the JSON object that `text` parses as, when that
/// member is a string; `None` when `text` is not an object, lacks the member,
/// or the member has another JSON type (as `serde_json` reads it).
pub uninterp spec fn reply_string_member(text: Seq<char>, key: Seq<char>) -> Option<Seq<char>>;

/// The member `key` of the JSON object that `text` parses as, when that
/// member is a boolean; `None` otherwise (as `serde_json` reads it).
pub uninterp spec fn reply_bool_member(text: Seq<char>, key: Seq<char>) -> Option<bool>;

/// The member `key` of the JSON object that `text` parses as, of any JSON
/// type, serialised again as compact JSON text; `None` when `text` is not an
/// object or lacks the member (as `serde_json` reads and writes it).
pub uninterp spec fn reply_member_json(text: Seq<char>, key: Seq<char>) -> Option<Seq<char>>;

/// `serde_json`'s message for a text that does not parse as JSON.
pub uninterp spec fn json_error_message(text: Seq<char>) -> Seq<char>;

/// A text, taken by its view.
pub open spec fn opt_text(s: Option<String>) -> Option<Seq<char>> {
    match s {
        Some(t) => Some(t@),
        None => None,
    }
}

/// `rep` holds the fields of the reply text `text`.
pub open spec fn reply_reads(rep: JsReply, text: Seq<char>) -> bool {
    &&& opt_text(rep.error) == reply_string_member(text, "error"@)
    &&& opt_text(rep.result) == reply_string_member(text, "result"@)
    &&& opt_text(rep.result_type) == reply_string_member(text, "type"@)
    &&& rep.is_json == reply_bool_member(text, "isJson"@)
    &&& opt_text(rep.data) == reply_member_json(text, "data"@)
}

/// Parses a page's reply with `serde_json::from_str::<serde_json::Value>` and
/// reads its members "error", "result" and "type" (`as_str`), "isJson"
/// (`as_bool`) and "data" (`get`, then `to_string`), indexing the value by
/// key. The contract states that it succeeds exactly when the text parses,
/// and names each member it reads and the parser's message on failure.
#[verifier::external_body]
pub(crate) fn read_reply(text: &str) -> (r: Result<JsReply, String>)
    ensures
        r is Ok == json_text_parses(text@),
        r is Ok ==> opt_text(r->Ok_0.error) == reply_string_member(text@, "error"@),
        r is Ok ==> opt_text(r->Ok_0.result) == reply_string_member(text@, "result"@),
        r is Ok ==> opt_text(r->Ok_0.result_type) == reply_string_member(text@, "type"@),
        r is Ok ==> r->Ok_0.is_json == reply_bool_member(text@, "isJson"@),
        r is Ok ==> opt_text(r->Ok_0.data) == reply_member_json(text@, "data"@),
        r is Err ==> r->Err_0@ == json_error_message(text@),
{
    let v: serde_json::Value = match serde_json::from_str(text) {
        Ok(v) => v,
        Err(e) => return Err(e.to_string()),
    };
    Ok(JsReply {
        error: v["error"].as_str().map(String::from),
        result: v["result"].as_str().map(String::from),
        result_type: v["type"].as_str().map(String::from),
        is_json: v["isJson"].as_bool(),
        data: v.get("data").map(serde_json::Value::to_string),
    })
}

/// How waiting for a page's reply ended: the waiting side's error is a
/// timeout; a reply text is received when it parses as JSON (its fields read
/// as [`read_reply`] says) and unparsable otherwise.
pub fn reply_outcome(waited: Result<String, String>) -> (r: ReplyOutcome)
    ensures
        match waited {
            Err(e) => r is TimedOut && r->TimedOut_0 == e,
            Ok(t) => if json_text_parses(t@) {
                r is Received && reply_reads(r->Received_0, t@)
            } else {
                r is Unparsable && r->Unparsable_0@ == json_error_message(t@)
            },
        },
{
    match waited {
        Err(e) => ReplyOutcome::TimedOut(e),
        Ok(text) => match read_reply(text.as_str()) {
            Ok(rep) => ReplyOutcome::Received(rep),
            Err(msg) => ReplyOutcome::Unparsable(msg),
        },
    }
}

/// The "result" string of a page-side capture's reply, if the reply parses
/// and has one.
pub fn reply_result_text(text: &str) -> (r: Option<String>)
    ensures
        opt_text(r) == (if json_text_parses(text@) {
            reply_string_member(text@, "result"@)
        } else {
            None
        }),
{
    match read_reply(text) {
        Ok(rep) => rep.result,
        Err(_) => None,
    }
}

/// `resp` is a failed answer with message `msg`.
pub open spec fn failure_with(resp: SocketResponse, msg: Seq<char>) -> bool {
    &&& !resp.success
    &&& resp.data is None
    &&& resp.id is None
    &&& resp.error is Some
    &&& resp.error->0@ == msg
}

/// `resp` is a successful answer carrying `data`.
pub open spec fn success_with(resp: SocketResponse, data: ResponseData) -> bool {
    &&& resp.success
    &&& resp.data == Some(data)
    &&& resp.error is None
    &&& resp.id is None
}

/// `r` answers with a failure whose message is `msg`.
pub open spec fn answers_failure(r: Result<SocketResponse, Error>, msg: Seq<char>) -> bool {
    r is Ok && failure_with(r->Ok_0, msg)
}

/// `r` fails with `Anyhow(msg)`.
pub open spec fn fails_with(r: Result<SocketResponse, Error>, msg: Seq<char>) -> bool {
    r is Err && r->Err_0@ == ErrorView::Anyhow(msg)
}

/// A failed answer with this message.
pub fn failure_response(message: String) -> (r: SocketResponse)
    ensures
        !r.success,
        r.data is None,
        r.error == Some(message),
        r.id is None,
{
    SocketResponse { success: false, data: None, error: Some(message), id: None }
}

/// A successful answer with this data.
pub fn success_response(data: ResponseData) -> (r: SocketResponse)
    ensures
        r.success,
        r.data == Some(data),
        r.error is None,
        r.id is None,
{
    SocketResponse { success: true, data: Some(data), error: None, id: None }
}

/// The answer a page's reply to a navigation or zoom event stands for: its
/// "error", when it reports one as a string; otherwise success, carrying the
/// whole reply text; a reply that does not parse fails with "Failed to parse
/// response: " and the parser's message.
pub fn parse_js_response(text: &str) -> (r: SocketResponse)
    ensures
        if json_text_parses(text@) {
            match reply_string_member(text@, "error"@) {
                Some(e) => failure_with(r, e),
                None => r.success && r.error is None && r.id is None && r.data is Some
                    && r.data->0 is Page && opt_text(r.data->0->Page_0) == Some(text@),
            }
        } else {
            failure_with(r, "Failed to parse response: "@ + json_error_message(text@))
        },
{
    match read_reply(text) {
        Ok(rep) => match rep.error {
            Some(e) => failure_response(e),
            None => success_response(ResponseData::Page(Some(String::from_str(text)))),
        },
        Err(msg) => failure_response(concat("Failed to parse response: ", msg.as_str())),
    }
}

/// The webview a tool request addresses: its label, or "main" when it names
/// none, resolved as [`webview_resolution`] says.
pub open spec fn tool_webview_spec(window_label: Option<String>, lookup: &WebviewLookup) -> Option<
    WebviewChoice,
> {
    webview_resolution(label_or_main(window_label), lookup)
}

/// Resolves the webview a tool request addresses. The label is the request's,
/// or "main"; when no webview matches, the request fails with
/// `Anyhow("Webview not found: <label>")`.
pub fn resolve_tool_webview(window_label: &Option<String>, lookup: &WebviewLookup) -> (r: Result<
    (String, WebviewChoice),
    Error,
>)
    ensures
        match tool_webview_spec(*window_label, lookup) {
            Some(c) => r is Ok && r->Ok_0.0@ == label_or_main(*window_label) && r->Ok_0.1 == c,
            None => r is Err && r->Err_0@ == ErrorView::Anyhow(
                "Webview not found: "@ + label_or_main(*window_label),
            ),
        },
{
    let label = window_label_or_main(window_label);
    match get_webview_for_eval(label.as_str(), lookup) {
        Some(c) => Ok((label, c)),
        None => Err(Error::Anyhow(concat("Webview not found: ", label.as_str()))),
    }
}

/// An event dispatch to the emit target of `label`.
pub fn dispatch_to(label: &str, lookup: &WebviewLookup, event: &str, response_event: &str, timeout_ms: u64) -> (r: EventDispatch)
    ensures
        r.target@ == emit_target_spec(label@, lookup),
        r.event@ == event@,
        r.response_event@ == response_event@,
        r.timeout_ms == timeout_ms,
{
    EventDispatch {
        target: get_emit_target(label, lookup),
        event: String::from_str(event),
        response_event: String::from_str(response_event),
        timeout_ms,
    }
}

} // verus!
