//! What the front end hands a native web view: the props it is created with and the commands
//! sent to it afterwards.

use vstd::prelude::*;

verus! {

/// The piece kind every backend registers its web-view renderer under.
pub const KIND: &'static str = "day.piece.webview";

/// Full props (realize). The initial `url` is loaded when the native view is created.
#[derive(Clone, Debug, Default, PartialEq)]
pub struct WebProps {
    pub url: String,
}

/// Sparse imperative commands sent to the native view after creation.
#[derive(Clone, Debug, PartialEq)]
pub enum WebPatch {
    /// Load a URL (from `.go()`).
    Load(String),
    /// History back.
    Back,
    /// History forward.
    Forward,
    /// Stop the in-flight load.
    Stop,
    /// Reload the current page.
    Reload,
    /// Evaluate `script` (already wrapped by [`crate::wrap_script`]) and report the result back
    /// as a custom event whose number is `req`.
    Eval { req: u64, script: String },
}

} // verus!
