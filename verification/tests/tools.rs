use tauri_plugin_mcp::error::Error;
use tauri_plugin_mcp::input::{
    ping, plan_text_input, text_injection_failed, text_input_done, PingRequest, TextInputRequest,
};
use tauri_plugin_mcp::resolve::{WebviewChoice, WebviewLookup};
use tauri_plugin_mcp::tools::execute_js::{
    finish_execute_js, plan_execute_js, ExecuteJsRequest, ScriptValue,
};
use tauri_plugin_mcp::tools::local_storage::{
    check_local_storage_request, finish_local_storage, plan_local_storage, LocalStoragePlan,
    LocalStorageRequest,
};
use tauri_plugin_mcp::tools::navigate_webview::{
    current_url, navigate_failed, navigated, navigation_timed_out, plan_navigate, reloaded,
    NavigatePlan, NavigateRequest, NavigateStep,
};
use tauri_plugin_mcp::tools::reply::{
    parse_js_response, reply_outcome, reply_result_text, ReplyOutcome, ResponseData, SocketResponse,
};
use tauri_plugin_mcp::tools::zoom::{plan_manage_zoom, zoom_failed, zoom_timed_out, ZoomPlan, ZoomRequest, ZoomStep};

fn lookup_found() -> WebviewLookup {
    WebviewLookup {
        webview_window_by_label: true,
        fallback: None,
        fallback_exists: false,
        webview_by_label: false,
        webview_window_titles: vec![],
    }
}

fn lookup_fallback() -> WebviewLookup {
    WebviewLookup {
        webview_window_by_label: false,
        fallback: Some("content".to_string()),
        fallback_exists: true,
        webview_by_label: false,
        webview_window_titles: vec![],
    }
}

fn lookup_missing() -> WebviewLookup {
    WebviewLookup {
        webview_window_by_label: false,
        fallback: None,
        fallback_exists: false,
        webview_by_label: false,
        webview_window_titles: vec![Some("Other".to_string())],
    }
}

fn anyhow(e: Error) -> String {
    match e {
        Error::Anyhow(m) => m,
        _ => panic!("expected an Anyhow error"),
    }
}

fn failure(r: &SocketResponse) -> String {
    assert!(!r.success);
    assert!(r.data.is_none());
    assert!(r.id.is_none());
    r.error.clone().expect("a failure carries an error")
}

fn j(text: &str) -> serde_json::Value {
    serde_json::from_str(text).unwrap()
}

fn received(text: &str) -> ReplyOutcome {
    let o = reply_outcome(Ok(text.to_string()));
    assert!(matches!(o, ReplyOutcome::Received(_)));
    o
}

#[test]
fn ping_echoes() {
    assert_eq!(ping(PingRequest { value: Some("hi".to_string()) }).value, Some("hi".to_string()));
    assert_eq!(ping(PingRequest { value: None }).value, None);
}

#[test]
fn execute_js_plan_defaults() {
    let req = ExecuteJsRequest { window_label: None, code: "1+1".to_string(), timeout_ms: None };
    let d = plan_execute_js(&req, &lookup_fallback()).ok().expect("plan");
    assert_eq!(d.target, "content");
    assert_eq!(d.event, "execute-js");
    assert_eq!(d.response_event, "execute-js-response");
    assert_eq!(d.timeout_ms, 30000);
    let req = ExecuteJsRequest { window_label: Some("w".to_string()), code: String::new(), timeout_ms: Some(5) };
    let d = plan_execute_js(&req, &lookup_found()).ok().expect("plan");
    assert_eq!(d.target, "w");
    assert_eq!(d.timeout_ms, 5);
}

#[test]
fn execute_js_webview_missing() {
    let req = ExecuteJsRequest { window_label: Some("panel".to_string()), code: String::new(), timeout_ms: None };
    match plan_execute_js(&req, &lookup_missing()) {
        Err(e) => assert_eq!(anyhow(e), "Webview not found: panel"),
        Ok(_) => panic!("expected an error"),
    }
}

#[test]
fn execute_js_outcomes() {
    let r = finish_execute_js(ReplyOutcome::TimedOut("timed out".to_string())).ok().unwrap();
    assert_eq!(failure(&r), "Timeout waiting for JS execution: timed out");
    match finish_execute_js(ReplyOutcome::Unparsable("bad".to_string())) {
        Err(e) => assert_eq!(anyhow(e), "Failed to parse JS response: bad"),
        Ok(_) => panic!("expected an error"),
    }
    let r = finish_execute_js(received(r#"{"error": "boom"}"#)).ok().unwrap();
    assert_eq!(failure(&r), "boom");
}

#[test]
fn execute_js_result_json_or_text() {
    let r = finish_execute_js(received(r#"{"result": "[1,2]", "type": "object", "isJson": true}"#))
    .ok()
    .unwrap();
    assert!(r.success);
    match r.data {
        Some(ResponseData::Script(s)) => {
            assert_eq!(s.result_type, "object");
            match s.result {
                ScriptValue::Json(t) => assert_eq!(t, "[1,2]"),
                ScriptValue::Text(_) => panic!("expected JSON"),
            }
        }
        _ => panic!("expected a script result"),
    }
    let r = finish_execute_js(received(r#"{"result": "not json", "isJson": true}"#))
    .ok()
    .unwrap();
    match r.data {
        Some(ResponseData::Script(s)) => {
            assert_eq!(s.result_type, "unknown");
            match s.result {
                ScriptValue::Text(t) => assert_eq!(t, "not json"),
                ScriptValue::Json(_) => panic!("expected text"),
            }
        }
        _ => panic!("expected a script result"),
    }
    let r = finish_execute_js(received(r#"{"result": "[1]"}"#)).ok().unwrap();
    match r.data {
        Some(ResponseData::Script(s)) => match s.result {
            ScriptValue::Text(t) => assert_eq!(t, "[1]"),
            ScriptValue::Json(_) => panic!("not marked as JSON"),
        },
        _ => panic!("expected a script result"),
    }
    let r = finish_execute_js(received(r#"{"result": 5}"#)).ok().unwrap();
    match r.data {
        Some(ResponseData::Script(s)) => match s.result {
            ScriptValue::Text(t) => assert_eq!(t, "[Result could not be stringified]"),
            ScriptValue::Json(_) => panic!("expected text"),
        },
        _ => panic!("expected a script result"),
    }
}

fn ls(action: &str, key: Option<&str>, value: Option<&str>) -> LocalStorageRequest {
    LocalStorageRequest {
        action: action.to_string(),
        key: key.map(|s| s.to_string()),
        value: value.map(|s| s.to_string()),
        window_label: None,
    }
}

#[test]
fn local_storage_validation() {
    assert_eq!(check_local_storage_request(&ls("get", None, None)), None);
    assert_eq!(check_local_storage_request(&ls("clear", None, None)), None);
    assert_eq!(check_local_storage_request(&ls("keys", None, None)), None);
    assert_eq!(check_local_storage_request(&ls("remove", Some("k"), None)), None);
    assert_eq!(
        check_local_storage_request(&ls("remove", None, None)).as_deref(),
        Some("Key is required for remove operations")
    );
    assert_eq!(check_local_storage_request(&ls("set", Some("k"), Some("v"))), None);
    assert_eq!(
        check_local_storage_request(&ls("set", Some("k"), None)).as_deref(),
        Some("Both key and value are required for set operation")
    );
    assert_eq!(
        check_local_storage_request(&ls("set", None, Some("v"))).as_deref(),
        Some("Both key and value are required for set operation")
    );
    assert_eq!(
        check_local_storage_request(&ls("drop", None, None)).as_deref(),
        Some("Unsupported localStorage action: drop")
    );
}

#[test]
fn local_storage_plan() {
    match plan_local_storage(&ls("drop", None, None), &lookup_missing()) {
        Ok(LocalStoragePlan::Respond(r)) => assert_eq!(failure(&r), "Unsupported localStorage action: drop"),
        _ => panic!("expected an immediate answer"),
    }
    match plan_local_storage(&ls("get", None, None), &lookup_missing()) {
        Err(e) => assert_eq!(anyhow(e), "Webview not found: main"),
        _ => panic!("expected an error"),
    }
    match plan_local_storage(&ls("keys", None, None), &lookup_fallback()) {
        Ok(LocalStoragePlan::Dispatch(d)) => {
            assert_eq!(d.target, "content");
            assert_eq!(d.event, "get-local-storage");
            assert_eq!(d.response_event, "get-local-storage-response");
            assert_eq!(d.timeout_ms, 5000);
        }
        _ => panic!("expected a dispatch"),
    }
}

#[test]
fn local_storage_outcomes() {
    let r = finish_local_storage(ReplyOutcome::TimedOut("late".to_string())).ok().unwrap();
    assert_eq!(failure(&r), "Timeout waiting for localStorage response: late");
    match finish_local_storage(ReplyOutcome::Unparsable("eof".to_string())) {
        Err(e) => assert_eq!(anyhow(e), "Failed to parse localStorage response: eof"),
        Ok(_) => panic!("expected an error"),
    }
    let r = finish_local_storage(received(r#"{"error": "denied"}"#)).ok().unwrap();
    assert_eq!(failure(&r), "denied");
    let r = finish_local_storage(received(r#"{"data": {"a": "1"}}"#)).ok().unwrap();
    assert!(r.success);
    match r.data {
        Some(ResponseData::Page(Some(t))) => assert_eq!(j(&t), j(r#"{"a": "1"}"#)),
        _ => panic!("expected the page's data"),
    }
    let r = finish_local_storage(received(r#"{}"#)).ok().unwrap();
    match r.data {
        Some(ResponseData::Page(None)) => {}
        _ => panic!("expected null data"),
    }
}

fn nav(action: &str, url: Option<&str>) -> NavigateRequest {
    NavigateRequest { window_label: None, action: action.to_string(), url: url.map(|s| s.to_string()) }
}

#[test]
fn navigate_plans() {
    match plan_navigate(&nav("navigate", Some("https://example.com")), &lookup_found()) {
        Ok(NavigatePlan::Navigate { webview, url }) => {
            assert_eq!(webview, WebviewChoice::WebviewWindowByLabel);
            assert_eq!(url, "https://example.com");
        }
        _ => panic!("expected navigate"),
    }
    match plan_navigate(&nav("navigate", None), &lookup_found()) {
        Err(e) => assert_eq!(anyhow(e), "'url' is required for navigate action"),
        _ => panic!("expected an error"),
    }
    assert!(matches!(plan_navigate(&nav("reload", None), &lookup_found()), Ok(NavigatePlan::Reload { .. })));
    assert!(matches!(plan_navigate(&nav("get_url", None), &lookup_found()), Ok(NavigatePlan::GetUrl { .. })));
    match plan_navigate(&nav("back", None), &lookup_fallback()) {
        Ok(NavigatePlan::History { dispatch, action }) => {
            assert_eq!(dispatch.target, "content");
            assert_eq!(dispatch.event, "navigate-webview");
            assert_eq!(dispatch.response_event, "navigate-webview-response");
            assert_eq!(dispatch.timeout_ms, 5000);
            assert_eq!(action, "back");
        }
        _ => panic!("expected history"),
    }
    match plan_navigate(&nav("sideways", None), &lookup_found()) {
        Ok(NavigatePlan::Respond(r)) => assert_eq!(
            failure(&r),
            "Unknown action 'sideways'. Valid actions: navigate, reload, get_url, back, forward"
        ),
        _ => panic!("expected an immediate answer"),
    }
    match plan_navigate(&nav("sideways", None), &lookup_missing()) {
        Err(e) => assert_eq!(anyhow(e), "Webview not found: main"),
        _ => panic!("expected an error"),
    }
}

#[test]
fn navigate_answers() {
    let r = navigated("https://a.b".to_string());
    assert!(r.success);
    assert!(matches!(r.data, Some(ResponseData::Navigated { ref url }) if url == "https://a.b"));
    assert!(matches!(reloaded().data, Some(ResponseData::Reloaded)));
    assert!(matches!(current_url(None).data, Some(ResponseData::CurrentUrl { ref url }) if url.is_empty()));
    assert!(matches!(current_url(Some("u".to_string())).data, Some(ResponseData::CurrentUrl { ref url }) if url == "u"));
    assert_eq!(failure(&navigation_timed_out("x")), "Timeout waiting for navigation: x");
    assert_eq!(anyhow(navigate_failed(NavigateStep::ParseUrl("::".to_string()), "bad")), "Invalid URL '::': bad");
    assert_eq!(anyhow(navigate_failed(NavigateStep::Navigate, "e")), "Failed to navigate: e");
    assert_eq!(anyhow(navigate_failed(NavigateStep::Reload, "e")), "Failed to reload: e");
    assert_eq!(anyhow(navigate_failed(NavigateStep::Emit, "e")), "Failed to emit navigate-webview event: e");
}

fn zoom(action: &str, scale_given: bool) -> ZoomRequest {
    ZoomRequest { window_label: None, action: action.to_string(), scale_given }
}

#[test]
fn zoom_plans() {
    assert!(matches!(plan_manage_zoom(&zoom("set", true), &lookup_found()), Ok(ZoomPlan::SetZoom { .. })));
    match plan_manage_zoom(&zoom("set", false), &lookup_found()) {
        Err(e) => assert_eq!(anyhow(e), "'scale' is required for set action"),
        _ => panic!("expected an error"),
    }
    match plan_manage_zoom(&zoom("get", false), &lookup_fallback()) {
        Ok(ZoomPlan::GetZoom { dispatch }) => {
            assert_eq!(dispatch.target, "content");
            assert_eq!(dispatch.event, "manage-zoom");
            assert_eq!(dispatch.response_event, "manage-zoom-response");
            assert_eq!(dispatch.timeout_ms, 5000);
        }
        _ => panic!("expected get"),
    }
    match plan_manage_zoom(&zoom("reset", false), &lookup_found()) {
        Ok(ZoomPlan::Respond(r)) => assert_eq!(failure(&r), "Unknown action 'reset'. Valid actions: set, get"),
        _ => panic!("expected an immediate answer"),
    }
    match plan_manage_zoom(&zoom("get", false), &lookup_missing()) {
        Err(e) => assert_eq!(anyhow(e), "Webview not found: main"),
        _ => panic!("expected an error"),
    }
    assert_eq!(failure(&zoom_timed_out("t")), "Timeout waiting for zoom level: t");
    assert_eq!(anyhow(zoom_failed(ZoomStep::SetLevel, "e")), "Failed to set zoom: e");
    assert_eq!(anyhow(zoom_failed(ZoomStep::Emit, "e")), "Failed to emit manage-zoom event: e");
}

#[test]
fn page_replies() {
    let r = parse_js_response(r#"{"error": "no"}"#);
    assert_eq!(failure(&r), "no");
    let r = parse_js_response(r#"{"zoom": 1}"#);
    assert!(r.success);
    assert!(matches!(r.data, Some(ResponseData::Page(Some(ref t))) if t == r#"{"zoom": 1}"#));
    let r = parse_js_response("not json");
    let expected = format!(
        "Failed to parse response: {}",
        serde_json::from_str::<serde_json::Value>("not json").unwrap_err()
    );
    assert_eq!(failure(&r), expected);
    let r = parse_js_response(r#"{"error": 7}"#);
    assert!(r.success);
}

#[test]
fn text_input() {
    let req = TextInputRequest { text: "hi".to_string(), delay_ms: None, initial_delay_ms: None, window_label: None };
    let p = plan_text_input(req, &lookup_found()).ok().unwrap();
    assert_eq!(p.delay_ms, 20);
    assert_eq!(p.initial_wait_ms, Some(500));
    assert_eq!(p.text, "hi");
    let req = TextInputRequest { text: String::new(), delay_ms: Some(0), initial_delay_ms: Some(0), window_label: None };
    let p = plan_text_input(req, &lookup_found()).ok().unwrap();
    assert_eq!(p.delay_ms, 0);
    assert_eq!(p.initial_wait_ms, None);
    let req = TextInputRequest { text: String::new(), delay_ms: None, initial_delay_ms: None, window_label: Some("x".to_string()) };
    match plan_text_input(req, &lookup_missing()) {
        Err(e) => assert_eq!(anyhow(e), "Webview not found: x"),
        Ok(_) => panic!("expected an error"),
    }
    assert_eq!(anyhow(text_injection_failed("denied")), "Native text injection failed: denied");
    let r = text_input_done(3, 42);
    assert_eq!(r.chars_typed, 3);
    assert_eq!(r.duration_ms, 42);
}

#[test]
fn reply_outcomes() {
    assert!(matches!(reply_outcome(Err("late".to_string())), ReplyOutcome::TimedOut(ref m) if m == "late"));
    assert!(matches!(reply_outcome(Ok("{oops".to_string())), ReplyOutcome::Unparsable(_)));
    match reply_outcome(Ok(r#"{"data": {"k": [true, null]}}"#.to_string())) {
        ReplyOutcome::Received(rep) => assert_eq!(rep.data.as_deref(), Some(r#"{"k":[true,null]}"#)),
        _ => panic!("expected a reply"),
    }
    match reply_outcome(Ok(r#"{"error": 1, "result": "r", "type": "t", "isJson": true, "data": [1]}"#.to_string())) {
        ReplyOutcome::Received(rep) => {
            assert_eq!(rep.error, None);
            assert_eq!(rep.result.as_deref(), Some("r"));
            assert_eq!(rep.result_type.as_deref(), Some("t"));
            assert_eq!(rep.is_json, Some(true));
            assert_eq!(rep.data.as_deref(), Some("[1]"));
        }
        _ => panic!("expected a reply"),
    }
    match reply_outcome(Ok("[1, 2]".to_string())) {
        ReplyOutcome::Received(rep) => {
            assert!(rep.error.is_none() && rep.result.is_none() && rep.is_json.is_none() && rep.data.is_none());
        }
        _ => panic!("expected a reply"),
    }
}

#[test]
fn capture_reply_result() {
    assert_eq!(reply_result_text(r#"{"result": "data:image/png;base64,AA=="}"#).as_deref(), Some("data:image/png;base64,AA=="));
    assert_eq!(reply_result_text(r#"{"result": 3}"#), None);
    assert_eq!(reply_result_text("nope"), None);
}
