# tauri_plugin_mcp

The decision logic of an MCP debugging bridge for Tauri desktop
applications, with machine-checked contracts.

- `src/` — the verified library: which window or webview a label resolves
  to (`resolve`), where events are sent, window operations (`window`),
  screenshot answers and page-side capture (`screenshot`), text input and
  ping (`input`), the webview tools (`tools`), and the laws that hold across
  them (`laws`).
- `tests/` — tests of the library on concrete values.
- `app/` — the Tauri side: it observes windows and webviews, performs the
  operations the library plans, and converts to and from JSON.
