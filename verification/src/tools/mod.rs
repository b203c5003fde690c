//! The tools that act on a webview through events and page-side scripts.
pub mod execute_js;
pub mod local_storage;
pub mod navigate_webview;
pub mod reply;
pub mod zoom;
