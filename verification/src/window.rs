//! Window management requests: which operation a request asks for, with
//! which arguments, on which window.
use vstd::prelude::*;
use vstd::string::StringExecFns;
use crate::error::{concat, result_view, Error, ErrorView};
use crate::resolve::{get_window_handle, window_resolution, WindowChoice, WindowLookup};
use crate::text::str_equal;

verus! {

/// A request to operate on a window.
pub struct WindowManagerRequest {
    /// The window's label; "main" when absent.
    pub window_label: Option<String>,
    /// The operation's name, such as "minimize" or "setPosition".
    pub operation: String,
    pub x: Option<i32>,
    pub y: Option<i32>,
    pub width: Option<u32>,
    pub height: Option<u32>,
}

/// The answer to a window operation that was carried out.
pub struct WindowManagerResponse {
    pub success: bool,
    pub error: Option<String>,
}

/// An operation on a window, with its arguments.
#[derive(PartialEq, Eq, Structural, Clone, Copy, Debug)]
pub enum WindowOperation {
    Minimize,
    Maximize,
    Unmaximize,
    Close,
    Show,
    Hide,
    /// Move the window to this logical position.
    SetPosition { x: i32, y: i32 },
    /// Resize the window to this logical size.
    SetSize { width: u32, height: u32 },
    Center,
    /// Leave fullscreen when in it, enter it otherwise.
    ToggleFullscreen,
    Focus,
}

/// The label a request names, or "main" when it names none.
pub open spec fn label_or_main(label: Option<String>) -> Seq<char> {
    match label {
        Some(l) => l@,
        None => "main"@,
    }
}

/// The label a request names, or "main" when it names none.
pub fn window_label_or_main(label: &Option<String>) -> (r: String)
    ensures
        r@ == label_or_main(*label),
{
    match label {
        Some(l) => l.clone(),
        None => String::from_str("main"),
    }
}

/// The operation a request asks for, or the error that refuses it.
pub open spec fn window_operation_spec(req: &WindowManagerRequest) -> Result<
    WindowOperation,
    ErrorView,
> {
    let op = req.operation@;
    if op == "minimize"@ {
        Ok(WindowOperation::Minimize)
    } else if op == "maximize"@ {
        Ok(WindowOperation::Maximize)
    } else if op == "unmaximize"@ {
        Ok(WindowOperation::Unmaximize)
    } else if op == "close"@ {
        Ok(WindowOperation::Close)
    } else if op == "show"@ {
        Ok(WindowOperation::Show)
    } else if op == "hide"@ {
        Ok(WindowOperation::Hide)
    } else if op == "setPosition"@ {
        if req.x is Some && req.y is Some {
            Ok(WindowOperation::SetPosition { x: req.x->0, y: req.y->0 })
        } else {
            Err(ErrorView::WindowOperationFailed("setPosition requires x and y coordinates"@))
        }
    } else if op == "setSize"@ {
        if req.width is Some && req.height is Some {
            Ok(WindowOperation::SetSize { width: req.width->0, height: req.height->0 })
        } else {
            Err(ErrorView::WindowOperationFailed("setSize requires width and height parameters"@))
        }
    } else if op == "center"@ {
        Ok(WindowOperation::Center)
    } else if op == "toggleFullscreen"@ {
        Ok(WindowOperation::ToggleFullscreen)
    } else if op == "focus"@ {
        Ok(WindowOperation::Focus)
    } else {
        Err(ErrorView::WindowOperationFailed("Unknown window operation: "@ + op))
    }
}

/// The operation a request asks for: one of minimize, maximize, unmaximize,
/// close, show, hide, setPosition (needs x and y), setSize (needs width and
/// height), center, toggleFullscreen and focus.
pub fn parse_window_operation(req: &WindowManagerRequest) -> (r: Result<WindowOperation, Error>)
    ensures
        result_view(r) == window_operation_spec(req),
{
    let op = req.operation.as_str();
    if str_equal(op, "minimize") {
        Ok(WindowOperation::Minimize)
    } else if str_equal(op, "maximize") {
        Ok(WindowOperation::Maximize)
    } else if str_equal(op, "unmaximize") {
        Ok(WindowOperation::Unmaximize)
    } else if str_equal(op, "close") {
        Ok(WindowOperation::Close)
    } else if str_equal(op, "show") {
        Ok(WindowOperation::Show)
    } else if str_equal(op, "hide") {
        Ok(WindowOperation::Hide)
    } else if str_equal(op, "setPosition") {
        match (req.x, req.y) {
            (Some(x), Some(y)) => Ok(WindowOperation::SetPosition { x, y }),
            _ => Err(
                Error::WindowOperationFailed(
                    String::from_str("setPosition requires x and y coordinates"),
                ),
            ),
        }
    } else if str_equal(op, "setSize") {
        match (req.width, req.height) {
            (Some(width), Some(height)) => Ok(WindowOperation::SetSize { width, height }),
            _ => Err(
                Error::WindowOperationFailed(
                    String::from_str("setSize requires width and height parameters"),
                ),
            ),
        }
    } else if str_equal(op, "center") {
        Ok(WindowOperation::Center)
    } else if str_equal(op, "toggleFullscreen") {
        Ok(WindowOperation::ToggleFullscreen)
    } else if str_equal(op, "focus") {
        Ok(WindowOperation::Focus)
    } else {
        Err(Error::WindowOperationFailed(concat("Unknown window operation: ", op)))
    }
}

/// What a window request resolves to: the window it addresses and the
/// operation to carry out on it, or the error that refuses it.
pub open spec fn plan_window_request_spec(
    req: &WindowManagerRequest,
    lookup: &WindowLookup,
) -> Result<(WindowChoice, WindowOperation), ErrorView> {
    match window_resolution(label_or_main(req.window_label), lookup) {
        None => Err(
            ErrorView::WindowOperationFailed(
                "Window not found: "@ + label_or_main(req.window_label),
            ),
        ),
        Some(c) => match window_operation_spec(req) {
            Ok(op) => Ok((c, op)),
            Err(e) => Err(e),
        },
    }
}

/// Plans a window request. `lookup` holds what the application observed for
/// the request's label (see [`window_label_or_main`]). The window is resolved
/// first: when none matches, the request fails with "Window not found: "
/// and the label; otherwise the operation is read from the request.
pub fn plan_window_request(req: &WindowManagerRequest, lookup: &WindowLookup) -> (r: Result<
    (WindowChoice, WindowOperation),
    Error,
>)
    ensures
        result_view(r) == plan_window_request_spec(req, lookup),
{
    let label = window_label_or_main(&req.window_label);
    let choice = get_window_handle(label.as_str(), lookup);
    match choice {
        None => Err(Error::WindowOperationFailed(concat("Window not found: ", label.as_str()))),
        Some(c) => match parse_window_operation(req) {
            Ok(op) => Ok((c, op)),
            Err(e) => Err(e),
        },
    }
}

/// The full-screen state that toggling leaves a window in.
pub fn toggled_fullscreen(is_fullscreen: bool) -> (r: bool)
    ensures
        r == !is_fullscreen,
{
    !is_fullscreen
}

/// The answer to a window operation that was carried out.
pub fn window_operation_done() -> (r: WindowManagerResponse)
    ensures
        r.success,
        r.error is None,
{
    WindowManagerResponse { success: true, error: None }
}

/// The answer to a window request, given how carrying out its planned
/// operation went: a carried-out operation is always answered with success
/// and no error, and a failed one with its error, never with an answer that
/// reports failure.
pub fn answer_window_request<E>(carried_out: Result<(), E>) -> (r: Result<
    WindowManagerResponse,
    E,
>)
    ensures
        r is Ok <==> carried_out is Ok,
        r is Ok ==> r->Ok_0.success && r->Ok_0.error is None,
        carried_out is Err ==> r == Err::<WindowManagerResponse, E>(carried_out->Err_0),
{
    match carried_out {
        Ok(()) => Ok(window_operation_done()),
        Err(e) => Err(e),
    }
}

} // verus!
