//! The verified core of a native web-view piece: the JavaScript envelope every backend runs a
//! script in, the codec for the replies it sends back, the register that routes each reply to the
//! evaluation waiting on it, each evaluation's polling decisions, what each build supports, and
//! the decisions the per-platform renderers make (command encodings, the bundled-site link
//! policy, the folder spelling WebView2 maps).

pub mod commands;
pub mod eval;
pub mod path;
pub mod props;
pub mod registry;
pub mod reply;
pub mod script;
pub mod support;
pub mod text;

pub use commands::{android_command, arkui_command, site_navigation_proceeds};
pub use eval::{EvalRequest, PollStep};
pub use path::mapping_folder;
pub use props::{WebPatch, WebProps, KIND};
pub use registry::EvalRegistry;
pub use reply::{decode, engine_error, EvalError, EvalFailure, SEP};
pub use script::{js_string_literal, wrap_script};
pub use support::{eval_support, support, Build, Os, Support};
