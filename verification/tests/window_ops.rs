use tauri_plugin_mcp::error::Error;
use tauri_plugin_mcp::resolve::{WindowChoice, WindowLookup};
use tauri_plugin_mcp::window::{
    answer_window_request, parse_window_operation, plan_window_request, toggled_fullscreen, window_label_or_main,
    window_operation_done, WindowManagerRequest, WindowOperation,
};

fn req(op: &str) -> WindowManagerRequest {
    WindowManagerRequest {
        window_label: None,
        operation: op.to_string(),
        x: None,
        y: None,
        width: None,
        height: None,
    }
}

fn found() -> WindowLookup {
    WindowLookup {
        webview_window_by_label: true,
        window_by_label: false,
        webview_window_titles: vec![],
        window_titles: vec![],
    }
}

fn op_failure(r: Result<WindowOperation, Error>) -> String {
    match r {
        Err(Error::WindowOperationFailed(m)) => m,
        _ => panic!("expected a window operation failure"),
    }
}

#[test]
fn simple_operations() {
    let cases = [
        ("minimize", WindowOperation::Minimize),
        ("maximize", WindowOperation::Maximize),
        ("unmaximize", WindowOperation::Unmaximize),
        ("close", WindowOperation::Close),
        ("show", WindowOperation::Show),
        ("hide", WindowOperation::Hide),
        ("center", WindowOperation::Center),
        ("toggleFullscreen", WindowOperation::ToggleFullscreen),
        ("focus", WindowOperation::Focus),
    ];
    for (name, op) in cases {
        assert_eq!(parse_window_operation(&req(name)).ok(), Some(op));
    }
}

#[test]
fn set_position_needs_both_coordinates() {
    let mut r = req("setPosition");
    r.x = Some(10);
    assert_eq!(op_failure(parse_window_operation(&r)), "setPosition requires x and y coordinates");
    r.y = Some(-20);
    assert_eq!(parse_window_operation(&r).ok(), Some(WindowOperation::SetPosition { x: 10, y: -20 }));
}

#[test]
fn set_size_needs_both_dimensions() {
    let mut r = req("setSize");
    r.height = Some(600);
    assert_eq!(op_failure(parse_window_operation(&r)), "setSize requires width and height parameters");
    r.width = Some(800);
    assert_eq!(parse_window_operation(&r).ok(), Some(WindowOperation::SetSize { width: 800, height: 600 }));
}

#[test]
fn unknown_operation_is_refused() {
    assert_eq!(op_failure(parse_window_operation(&req("Minimize"))), "Unknown window operation: Minimize");
    assert_eq!(op_failure(parse_window_operation(&req(""))), "Unknown window operation: ");
}

#[test]
fn window_not_found_comes_first() {
    let lookup = WindowLookup {
        webview_window_by_label: false,
        window_by_label: false,
        webview_window_titles: vec![Some("Other".to_string())],
        window_titles: vec![],
    };
    match plan_window_request(&req("bogus"), &lookup) {
        Err(Error::WindowOperationFailed(m)) => assert_eq!(m, "Window not found: main"),
        _ => panic!("expected the window to be missing"),
    }
    let mut r = req("close");
    r.window_label = Some("tools".to_string());
    match plan_window_request(&r, &lookup) {
        Err(Error::WindowOperationFailed(m)) => assert_eq!(m, "Window not found: tools"),
        _ => panic!("expected the window to be missing"),
    }
}

#[test]
fn planned_request() {
    match plan_window_request(&req("focus"), &found()) {
        Ok((c, op)) => {
            assert_eq!(c, WindowChoice::WebviewWindowByLabel);
            assert_eq!(op, WindowOperation::Focus);
        }
        Err(_) => panic!("expected a plan"),
    }
}

#[test]
fn label_defaults_to_main() {
    assert_eq!(window_label_or_main(&None), "main");
    assert_eq!(window_label_or_main(&Some("x".to_string())), "x");
}

#[test]
fn toggle_flips_and_twice_restores() {
    assert!(toggled_fullscreen(false));
    assert!(!toggled_fullscreen(true));
    assert!(toggled_fullscreen(toggled_fullscreen(true)));
}

#[test]
fn operation_done_answer() {
    let r = window_operation_done();
    assert!(r.success);
    assert!(r.error.is_none());
}

#[test]
fn window_answers() {
    let r = answer_window_request::<String>(Ok(())).ok().unwrap();
    assert!(r.success && r.error.is_none());
    assert_eq!(answer_window_request::<String>(Err("denied".to_string())).err().as_deref(), Some("denied"));
}
