//! Reading and setting a webview's zoom level.
use vstd::prelude::*;
use vstd::string::StringExecFns;
use crate::error::{concat, concat3, Error, ErrorView};
use crate::resolve::{emit_target_spec, WebviewChoice, WebviewLookup};
use crate::text::str_equal;
use crate::tools::reply::{
    dispatch_to, failure_response, failure_with, resolve_tool_webview, tool_webview_spec,
    EventDispatch, SocketResponse,
};
use crate::window::label_or_main;

verus! {

/// A zoom request. The scale itself is a float, which the application keeps;
/// the library only needs to know whether one was given.
pub struct ZoomRequest {
    pub window_label: Option<String>,
    /// "set" or "get".
    pub action: String,
    /// The request carries a scale.
    pub scale_given: bool,
}

/// What to do for a zoom request.
pub enum ZoomPlan {
    /// Set the webview's zoom to the request's scale.
    SetZoom { webview: WebviewChoice },
    /// Ask the page for its zoom level by the event in `dispatch`, whose
    /// payload is `{"action": "get"}`.
    GetZoom { dispatch: EventDispatch },
    /// Answer at once.
    Respond(SocketResponse),
}

/// Plans a zoom request. The webview must exist (else
/// `Anyhow("Webview not found: <label>")`); "set" needs a scale (else
/// `Anyhow("'scale' is required for set action")`), "get" asks the page, and
/// any other action is answered with a failure that lists the valid ones.
pub fn plan_manage_zoom(req: &ZoomRequest, lookup: &WebviewLookup) -> (r: Result<ZoomPlan, Error>)
    ensures
        ({
            let label = label_or_main(req.window_label);
            let a = req.action@;
            match tool_webview_spec(req.window_label, lookup) {
                None => r is Err && r->Err_0@ == ErrorView::Anyhow("Webview not found: "@ + label),
                Some(w) => if a == "set"@ {
                    if req.scale_given {
                        r == Ok::<ZoomPlan, Error>(ZoomPlan::SetZoom { webview: w })
                    } else {
                        r is Err && r->Err_0@ == ErrorView::Anyhow(
                            "'scale' is required for set action"@,
                        )
                    }
                } else if a == "get"@ {
                    &&& r is Ok
                    &&& r->Ok_0 is GetZoom
                    &&& r->Ok_0->GetZoom_dispatch.target@ == emit_target_spec(label, lookup)
                    &&& r->Ok_0->GetZoom_dispatch.event@ == "manage-zoom"@
                    &&& r->Ok_0->GetZoom_dispatch.response_event@ == "manage-zoom-response"@
                    &&& r->Ok_0->GetZoom_dispatch.timeout_ms == 5000
                } else {
                    &&& r is Ok
                    &&& r->Ok_0 is Respond
                    &&& failure_with(
                        r->Ok_0->Respond_0,
                        "Unknown action '"@ + a + "'. Valid actions: set, get"@,
                    )
                },
            }
        }),
{
    let (label, webview) = resolve_tool_webview(&req.window_label, lookup)?;
    let a = req.action.as_str();
    if str_equal(a, "set") {
        if req.scale_given {
            Ok(ZoomPlan::SetZoom { webview })
        } else {
            Err(Error::Anyhow(String::from_str("'scale' is required for set action")))
        }
    } else if str_equal(a, "get") {
        Ok(
            ZoomPlan::GetZoom {
                dispatch: dispatch_to(
                    label.as_str(),
                    lookup,
                    "manage-zoom",
                    "manage-zoom-response",
                    5000,
                ),
            },
        )
    } else {
        Ok(
            ZoomPlan::Respond(
                failure_response(concat3("Unknown action '", a, "'. Valid actions: set, get")),
            ),
        )
    }
}

/// The answer when the page did not report its zoom level in time.
pub fn zoom_timed_out(detail: &str) -> (r: SocketResponse)
    ensures
        failure_with(r, "Timeout waiting for zoom level: "@ + detail@),
{
    failure_response(concat("Timeout waiting for zoom level: ", detail))
}

/// A step of a zoom request that can fail.
pub enum ZoomStep {
    /// Setting the zoom level.
    SetLevel,
    /// Sending the "manage-zoom" event.
    Emit,
}

/// The error for a failed zoom step, with the failing call's message.
pub fn zoom_failed(step: ZoomStep, detail: &str) -> (r: Error)
    ensures
        r@ == ErrorView::Anyhow(match step {
            ZoomStep::SetLevel => "Failed to set zoom: "@ + detail@,
            ZoomStep::Emit => "Failed to emit manage-zoom event: "@ + detail@,
        }),
{
    match step {
        ZoomStep::SetLevel => Error::Anyhow(concat("Failed to set zoom: ", detail)),
        ZoomStep::Emit => Error::Anyhow(concat("Failed to emit manage-zoom event: ", detail)),
    }
}

} // verus!
