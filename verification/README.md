# day-piece-webview

A native web view for Day apps, with its logic verified in Verus.

- `src/` is the verified library: the JavaScript envelope a script is evaluated in
  (`script.rs`), the reply codec (`reply.rs`), the register that routes each reply to the
  evaluation waiting on it (`registry.rs`), each evaluation's polling decisions (`eval.rs`), what
  each build supports (`support.rs`), the per-backend command encodings and bundled-site link
  policy (`commands.rs`), and the folder spelling WebView2 maps (`path.rs`).
- `app/` is the Day front end (the `web_view` piece, `JsHandle`, the evaluation future) and the
  toolkit renderers that call into the library.
- `tests/` runs the library on concrete inputs.
