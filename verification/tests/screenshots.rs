use tauri_plugin_mcp::error::Error;
use tauri_plugin_mcp::resolve::{WindowChoice, WindowLookup};
use tauri_plugin_mcp::screenshot::{
    capture_settings, create_error_response, create_success_response, settle_capture, decimal_text, plan_js_screenshot,
    saved_js_screenshot, screenshot_file_path, screenshot_window, second_field, JsScreenshotPlan,
};

#[test]
fn success_and_error_responses() {
    let r = create_success_response("data:image/png;base64,AA==".to_string());
    assert!(r.success);
    assert_eq!(r.data.as_deref(), Some("data:image/png;base64,AA=="));
    assert!(r.error.is_none() && r.file_path.is_none());
    let r = create_error_response("no window".to_string());
    assert!(!r.success);
    assert_eq!(r.error.as_deref(), Some("no window"));
    assert!(r.data.is_none() && r.file_path.is_none());
}

#[test]
fn screenshot_window_not_found() {
    let lookup = WindowLookup {
        webview_window_by_label: false,
        window_by_label: false,
        webview_window_titles: vec![],
        window_titles: vec![],
    };
    match screenshot_window("shots", &lookup) {
        Err(Error::WindowNotFound(l)) => assert_eq!(l, "shots"),
        _ => panic!("expected WindowNotFound"),
    }
    let lookup = WindowLookup {
        webview_window_by_label: false,
        window_by_label: true,
        webview_window_titles: vec![],
        window_titles: vec![],
    };
    assert_eq!(screenshot_window("shots", &lookup).ok(), Some(WindowChoice::WindowByLabel));
}

#[test]
fn second_comma_field() {
    assert_eq!(second_field("a,b,c").as_deref(), Some("b"));
    assert_eq!(second_field("a,b").as_deref(), Some("b"));
    assert_eq!(second_field("a,").as_deref(), Some(""));
    assert_eq!(second_field("abc"), None);
}

#[test]
fn js_capture_rejects_non_images() {
    assert!(matches!(plan_js_screenshot(None, Some(true), None), JsScreenshotPlan::Abandon));
    assert!(matches!(
        plan_js_screenshot(Some("data:text/plain,hi".to_string()), None, None),
        JsScreenshotPlan::Abandon
    ));
}

#[test]
fn js_capture_inline() {
    match plan_js_screenshot(Some("data:image/jpeg;base64,AAAA".to_string()), Some(false), Some(true)) {
        JsScreenshotPlan::Inline(r) => {
            assert!(r.success);
            assert_eq!(r.data.as_deref(), Some("data:image/jpeg;base64,AAAA"));
            assert!(r.file_path.is_none() && r.error.is_none());
        }
        _ => panic!("expected an inline answer"),
    }
}

#[test]
fn js_capture_saved_decodes_base64() {
    match plan_js_screenshot(Some("data:image/jpeg;base64,aGVsbG8=".to_string()), Some(true), None) {
        JsScreenshotPlan::Save { bytes, data_url, thumbnail } => {
            assert_eq!(bytes, b"hello".to_vec());
            assert_eq!(data_url, "data:image/jpeg;base64,aGVsbG8=");
            assert!(!thumbnail);
        }
        _ => panic!("expected a save"),
    }
    assert!(matches!(
        plan_js_screenshot(Some("data:image/jpeg;base64,@@@".to_string()), Some(true), Some(true)),
        JsScreenshotPlan::Abandon
    ));
    assert!(matches!(
        plan_js_screenshot(Some("data:image/jpeg".to_string()), Some(true), Some(true)),
        JsScreenshotPlan::Abandon
    ));
}

#[test]
fn saved_answer_keeps_data_only_for_thumbnails() {
    let r = saved_js_screenshot("d".to_string(), true, "/tmp/a.jpg".to_string());
    assert_eq!(r.data.as_deref(), Some("d"));
    assert_eq!(r.file_path.as_deref(), Some("/tmp/a.jpg"));
    assert!(r.success && r.error.is_none());
    let r = saved_js_screenshot("d".to_string(), false, "/tmp/a.jpg".to_string());
    assert!(r.data.is_none());
    assert_eq!(r.file_path.as_deref(), Some("/tmp/a.jpg"));
}

#[test]
fn file_names() {
    assert_eq!(decimal_text(0), "0");
    assert_eq!(decimal_text(7), "7");
    assert_eq!(decimal_text(1700000000123), "1700000000123");
    assert_eq!(decimal_text(u128::MAX), u128::MAX.to_string());
    assert_eq!(screenshot_file_path("/tmp/shots", 42), "/tmp/shots/screenshot_42.jpg");
    assert_ne!(screenshot_file_path("/d", 10), screenshot_file_path("/d", 1));
}

#[test]
fn capture_defaults_and_settling() {
    assert_eq!(capture_settings(None, None), (70, 1400));
    assert_eq!(capture_settings(Some(30), Some(800)), (30, 800));
    assert_eq!(settle_capture::<u8, &str>(Ok(1), Some(2)), Ok(1));
    assert_eq!(settle_capture::<u8, &str>(Err("x"), Some(2)), Ok(2));
    assert_eq!(settle_capture::<u8, &str>(Err("x"), None), Err("x"));
}
