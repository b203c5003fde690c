//! Laws that characterise the tools' answers in terms of the page's reply
//! and the request alone.
use vstd::prelude::*;
use crate::json::json_text_parses;
use crate::tools::execute_js::{script_answer, ScriptValue};
use crate::error::{result_view, Error, ErrorView};
use crate::screenshot::second_comma_field;
use crate::text::{contains, is_first_index, occurs_at, starts_with};
use crate::tools::local_storage::{local_storage_refusal, LocalStorageRequest};
use crate::tools::reply::{
    failure_with, opt_text, reply_bool_member, reply_member_json, reply_reads,
    reply_string_member, success_with, JsReply, ResponseData, SocketResponse,
};
use crate::window::{label_or_main, window_operation_spec, WindowManagerRequest, WindowOperation};

verus! {

/// The text an execute-js result carries, whichever way it is passed on.
pub open spec fn script_text(v: ScriptValue) -> Seq<char> {
    match v {
        ScriptValue::Json(t) => t@,
        ScriptValue::Text(t) => t@,
    }
}

/// An execute-js answer to a reply without an error is a success that
/// carries the reply's "result" (or "[Result could not be stringified]") and
/// "type" (or "unknown"); the result is passed on as JSON exactly when the
/// page marked it with `isJson: true` and the text parses as JSON, and as
/// text otherwise, in particular whenever "isJson" is false or absent.
pub proof fn law_script_answer(resp: SocketResponse, rep: &JsReply)
    requires
        script_answer(resp, rep),
    ensures
        resp.success,
        resp.error is None,
        resp.data is Some && resp.data->0 is Script,
        ({
            let out = resp.data->0->Script_0;
            &&& out.result_type@ == (match rep.result_type {
                Some(s) => s@,
                None => "unknown"@,
            })
            &&& script_text(out.result) == (match rep.result {
                Some(s) => s@,
                None => "[Result could not be stringified]"@,
            })
            &&& (out.result is Json <==> (rep.is_json == Some(true) && json_text_parses(
                script_text(out.result),
            )))
            &&& rep.is_json != Some(true) ==> out.result is Text
        }),
{
}

proof fn lemma_operation_names_distinct()
    ensures
        "minimize"@.len() == 8 && "maximize"@.len() == 8 && "unmaximize"@.len() == 10
            && "close"@.len() == 5 && "show"@.len() == 4 && "hide"@.len() == 4
            && "setPosition"@.len() == 11 && "setSize"@.len() == 7 && "center"@.len() == 6
            && "toggleFullscreen"@.len() == 16 && "focus"@.len() == 5,
        "minimize"@ != "maximize"@,
        "close"@ != "focus"@,
        "show"@ != "hide"@,
{
    reveal_strlit("minimize");
    reveal_strlit("maximize");
    reveal_strlit("unmaximize");
    reveal_strlit("close");
    reveal_strlit("show");
    reveal_strlit("hide");
    reveal_strlit("setPosition");
    reveal_strlit("setSize");
    reveal_strlit("center");
    reveal_strlit("toggleFullscreen");
    reveal_strlit("focus");
    assert("minimize"@[1] != "maximize"@[1]);
    assert("close"@[0] != "focus"@[0]);
    assert("show"@[0] != "hide"@[0]);
}

/// Each operation name selects its own operation: the eleven names map to
/// the eleven operations, "setPosition" and "setSize" carry the request's
/// coordinates or dimensions and are refused without both, and any other
/// name is refused with "Unknown window operation: " and the name.
pub proof fn law_window_operation_names(req: &WindowManagerRequest)
    ensures
        ({
            let op = req.operation@;
            let r = window_operation_spec(req);
            &&& op == "minimize"@ ==> r == Ok::<_, ErrorView>(WindowOperation::Minimize)
            &&& op == "maximize"@ ==> r == Ok::<_, ErrorView>(WindowOperation::Maximize)
            &&& op == "unmaximize"@ ==> r == Ok::<_, ErrorView>(WindowOperation::Unmaximize)
            &&& op == "close"@ ==> r == Ok::<_, ErrorView>(WindowOperation::Close)
            &&& op == "show"@ ==> r == Ok::<_, ErrorView>(WindowOperation::Show)
            &&& op == "hide"@ ==> r == Ok::<_, ErrorView>(WindowOperation::Hide)
            &&& op == "center"@ ==> r == Ok::<_, ErrorView>(WindowOperation::Center)
            &&& op == "toggleFullscreen"@ ==> r == Ok::<_, ErrorView>(
                WindowOperation::ToggleFullscreen,
            )
            &&& op == "focus"@ ==> r == Ok::<_, ErrorView>(WindowOperation::Focus)
            &&& op == "setPosition"@ ==> r == (match (req.x, req.y) {
                (Some(x), Some(y)) => Ok::<_, ErrorView>(WindowOperation::SetPosition { x, y }),
                _ => Err(ErrorView::WindowOperationFailed("setPosition requires x and y coordinates"@)),
            })
            &&& op == "setSize"@ ==> r == (match (req.width, req.height) {
                (Some(width), Some(height)) => Ok::<_, ErrorView>(
                    WindowOperation::SetSize { width, height },
                ),
                _ => Err(
                    ErrorView::WindowOperationFailed("setSize requires width and height parameters"@),
                ),
            })
            &&& (op != "minimize"@ && op != "maximize"@ && op != "unmaximize"@ && op != "close"@
                && op != "show"@ && op != "hide"@ && op != "setPosition"@ && op != "setSize"@
                && op != "center"@ && op != "toggleFullscreen"@ && op != "focus"@) ==> r == Err::<
                WindowOperation,
                ErrorView,
            >(ErrorView::WindowOperationFailed("Unknown window operation: "@ + op))
        }),
{
    lemma_operation_names_distinct();
}

proof fn lemma_storage_actions_distinct()
    ensures
        "get"@.len() == 3 && "set"@.len() == 3 && "remove"@.len() == 6 && "clear"@.len() == 5
            && "keys"@.len() == 4,
        "get"@ != "set"@,
{
    reveal_strlit("get");
    reveal_strlit("set");
    reveal_strlit("remove");
    reveal_strlit("clear");
    reveal_strlit("keys");
    assert("get"@[0] != "set"@[0]);
}

/// A localStorage request is refused before anything is sent exactly when
/// it removes without a key, sets without a key and a value, or names an
/// action other than get, set, remove, clear and keys; each refusal says why.
pub proof fn law_local_storage_refusals(req: &LocalStorageRequest)
    ensures
        ({
            let a = req.action@;
            let r = local_storage_refusal(req);
            &&& (a == "get"@ || a == "clear"@ || a == "keys"@) ==> r is None
            &&& a == "remove"@ ==> r == (if req.key is None {
                Some("Key is required for remove operations"@)
            } else {
                None
            })
            &&& a == "set"@ ==> r == (if req.key is Some && req.value is Some {
                None
            } else {
                Some("Both key and value are required for set operation"@)
            })
            &&& (a != "get"@ && a != "set"@ && a != "remove"@ && a != "clear"@ && a != "keys"@)
                ==> r == Some("Unsupported localStorage action: "@ + a)
        }),
{
    lemma_storage_actions_distinct();
}

/// The second comma-separated field of a text runs from just after its
/// first comma (at `i`) to the next comma or the end (at `j`); a text without
/// a comma has none.
pub proof fn law_second_comma_field(s: Seq<char>, i: int, j: int)
    ensures
        (forall|k: int| 0 <= k < s.len() ==> s[k] != ',') ==> second_comma_field(s) is None,
        (0 <= i < j <= s.len() && s[i] == ',' && (forall|k: int| 0 <= k < i ==> s[k] != ',')
            && (forall|k: int| i < k < j ==> s[k] != ',') && (j == s.len() || s[j] == ','))
            ==> second_comma_field(s) == Some(s.subrange(i + 1, j)),
{
    if forall|k: int| 0 <= k < s.len() ==> s[k] != ',' {
        if exists|k: int| is_first_index(s, ',', k) {
            let c = choose|k: int| is_first_index(s, ',', k);
            assert(s[c] == ',');
        }
    }
    if 0 <= i < j <= s.len() && s[i] == ',' && (forall|k: int| 0 <= k < i ==> s[k] != ',') && (
    forall|k: int| i < k < j ==> s[k] != ',') && (j == s.len() || s[j] == ',') {
        assert(is_first_index(s, ',', i));
        let c = choose|k: int| is_first_index(s, ',', k);
        if c < i {
            assert(s[c] != ',');
        }
        if c > i {
            assert(s[i] != ',');
        }
        let rest = s.subrange(i + 1, s.len() as int);
        if j < s.len() {
            let d0 = j - i - 1;
            assert(rest[d0] == s[j]);
            assert forall|m: int| 0 <= m < d0 implies rest[m] != ',' by {
                assert(rest[m] == s[m + i + 1]);
            }
            assert(is_first_index(rest, ',', d0));
            let d = choose|k: int| is_first_index(rest, ',', k);
            if d < d0 {
                assert(rest[d] != ',');
            }
            if d > d0 {
                assert(rest[d0] != ',');
            }
            assert(rest.subrange(0, d0) =~= s.subrange(i + 1, j));
        } else {
            if exists|k: int| is_first_index(rest, ',', k) {
                let d = choose|k: int| is_first_index(rest, ',', k);
                assert(rest[d] == s[d + i + 1]);
            }
            assert(rest =~= s.subrange(i + 1, j));
        }
    }
}

/// `starts_with` and `contains` mean what their names say.
pub proof fn law_prefix_and_containment(s: Seq<char>, p: Seq<char>)
    ensures
        starts_with(s, p) <==> (p.len() <= s.len() && s.subrange(0, p.len() as int) == p),
        contains(s, p) <==> exists|i: int|
            0 <= i && i + p.len() <= s.len() && #[trigger] s.subrange(i, i + p.len()) == p,
{
    if contains(s, p) {
        let i = choose|i: int| occurs_at(s, p, i);
        assert(s.subrange(i, i + p.len()) == p);
    }
    if exists|i: int| 0 <= i && i + p.len() <= s.len() && #[trigger] s.subrange(i, i + p.len()) == p {
        let i = choose|i: int| 0 <= i && i + p.len() <= s.len() && #[trigger] s.subrange(i, i + p.len()) == p;
        assert(occurs_at(s, p, i));
    }
}

/// A failed answer carries only its message; a successful one carries only
/// its data; an error is kept, by its text, when a result is taken by view.
pub proof fn law_answer_shapes(
    resp: SocketResponse,
    msg: Seq<char>,
    data: ResponseData,
    r: Result<WindowOperation, Error>,
)
    ensures
        match r {
            Ok(op) => result_view(r) == Ok::<WindowOperation, ErrorView>(op),
            Err(e) => result_view(r) == Err::<WindowOperation, ErrorView>(e@),
        },
        failure_with(resp, msg) ==> !resp.success && resp.data is None && resp.id is None
            && opt_text(resp.error) == Some(msg),
        success_with(resp, data) ==> resp.success && resp.data == Some(data) && resp.error is None
            && resp.id is None,
{
}

/// The fields read from a reply are the named members of its text, and a
/// request's label is its own or "main".
pub proof fn law_reply_fields_and_labels(rep: JsReply, text: Seq<char>, label: Option<String>)
    ensures
        reply_reads(rep, text) ==> opt_text(rep.error) == reply_string_member(text, "error"@)
            && opt_text(rep.result) == reply_string_member(text, "result"@) && opt_text(
            rep.result_type,
        ) == reply_string_member(text, "type"@) && rep.is_json == reply_bool_member(
            text,
            "isJson"@,
        ) && opt_text(rep.data) == reply_member_json(text, "data"@),
        label_or_main(label) == (match label {
            Some(l) => l@,
            None => "main"@,
        }),
{
}

/// An error's view keeps its kind and its text.
pub proof fn law_error_view(e: Error)
    ensures
        match e {
            Error::WindowNotFound(s) => e@ == ErrorView::WindowNotFound(s@),
            Error::WindowOperationFailed(s) => e@ == ErrorView::WindowOperationFailed(s@),
            Error::Anyhow(s) => e@ == ErrorView::Anyhow(s@),
        },
{
}

} // verus!
