//! What each build of the piece realizes: a native browser engine, an emulation, or nothing.
//!
//! Which backend a build carries is fixed when it is compiled (the toolkit features it enables and
//! the platform it targets); [`Build`] holds those facts as plain values so the answer is a
//! function of them.

use vstd::prelude::*;

verus! {

/// How far a capability is backed on the running platform.
#[derive(Clone, Copy, Debug, PartialEq, Eq, Structural)]
pub enum Support {
    /// A real embedded engine with the full command set.
    Native,
    /// Pages load, but history cannot be driven and navigation is not reported back.
    Emulated,
    /// No engine: the placeholder leaf renders instead.
    Unsupported,
}

/// The operating system a build targets.
#[derive(Clone, Copy, Debug, PartialEq, Eq, Structural)]
pub enum Os {
    MacOs,
    Ios,
    Android,
    Windows,
    Linux,
    Other,
}

/// The toolkit backends a build enables, and the target it is compiled for.
#[derive(Clone, Copy, Debug, PartialEq, Eq, Structural)]
pub struct Build {
    pub appkit: bool,
    pub uikit: bool,
    pub mdc: bool,
    pub gtk: bool,
    pub qt: bool,
    pub xaml: bool,
    pub arkui: bool,
    pub dom: bool,
    pub os: Os,
    /// The target's architecture is `wasm32`.
    pub wasm32: bool,
    /// The target's environment is OpenHarmony (`ohos`).
    pub ohos: bool,
}

/// GTK on macOS or Windows: WebKitGTK 6 ships only on Linux, so those builds show the
/// placeholder.
pub open spec fn gtk_without_webkit(b: Build) -> bool {
    b.gtk && (b.os == Os::MacOs || b.os == Os::Windows)
}

/// The web-dom backend: an `<iframe>` in the host page.
pub open spec fn dom_iframe(b: Build) -> bool {
    b.dom && b.wasm32
}

/// A backend with a real embedded engine.
pub open spec fn native_engine(b: Build) -> bool {
    ||| b.appkit && b.os == Os::MacOs
    ||| b.uikit && b.os == Os::Ios
    ||| b.mdc && b.os == Os::Android
    ||| b.gtk && b.os != Os::MacOs && b.os != Os::Windows
    ||| b.qt
    ||| b.xaml && b.os == Os::Windows
    ||| b.arkui && b.ohos
}

/// What a build realizes; the GTK gap is checked first, since the `gtk` feature is on for all
/// three desktop platforms.
pub open spec fn support_of(b: Build) -> Support {
    if gtk_without_webkit(b) {
        Support::Unsupported
    } else if dom_iframe(b) {
        Support::Emulated
    } else if native_engine(b) {
        Support::Native
    } else {
        Support::Unsupported
    }
}

/// Whether a build can evaluate JavaScript: only the arms that have an evaluation path (AppKit,
/// UIKit, Qt and XAML). GTK, Android and ArkUI have an engine but no evaluation arm, and web-dom
/// can never have one (`contentWindow.eval` throws across origins).
pub open spec fn eval_support_of(b: Build) -> Support {
    if (b.appkit && b.os == Os::MacOs) || (b.uikit && b.os == Os::Ios) || b.qt || (b.xaml && b.os
        == Os::Windows) {
        Support::Native
    } else {
        Support::Unsupported
    }
}

/// What this backend realizes. `Native` is a real embedded browser engine with the full command
/// set; `Emulated` loads pages but cannot drive history or report navigation back (web-dom's
/// `<iframe>`); `Unsupported` renders the placeholder leaf. `.back()`, `.forward()` and `.stop()`
/// do nothing below `Native`, so an app should gate those controls on this.
pub fn support(b: &Build) -> (s: Support)
    ensures
        s == support_of(*b),
{
    if b.gtk && (b.os == Os::MacOs || b.os == Os::Windows) {
        Support::Unsupported
    } else if b.dom && b.wasm32 {
        Support::Emulated
    } else if (b.appkit && b.os == Os::MacOs) || (b.uikit && b.os == Os::Ios) || (b.mdc && b.os
        == Os::Android) || (b.gtk && b.os != Os::MacOs && b.os != Os::Windows) || b.qt || (b.xaml
        && b.os == Os::Windows) || (b.arkui && b.ohos) {
        Support::Native
    } else {
        Support::Unsupported
    }
}

/// Whether this backend can evaluate JavaScript. A separate axis from [`support`]: web-dom loads
/// pages but cannot evaluate in them, so the two answers differ there.
pub fn eval_support(b: &Build) -> (s: Support)
    ensures
        s == eval_support_of(*b),
{
    if (b.appkit && b.os == Os::MacOs) || (b.uikit && b.os == Os::Ios) || b.qt || (b.xaml && b.os
        == Os::Windows) {
        Support::Native
    } else {
        Support::Unsupported
    }
}

/// A build that can evaluate JavaScript embeds a native engine, unless its view is switched off
/// before any engine is considered: GTK on macOS or Windows, or web-dom's `<iframe>`.
pub proof fn law_eval_needs_native_view(b: Build)
    requires
        !gtk_without_webkit(b),
        !dom_iframe(b),
    ensures
        eval_support_of(b) == Support::Native ==> support_of(b) == Support::Native,
{
}

/// The two answers are never `Emulated` for evaluation: a backend either has an evaluation path
/// or it has none.
pub proof fn law_eval_is_never_emulated(b: Build)
    ensures
        eval_support_of(b) != Support::Emulated,
{
}

/// Which builds evaluate JavaScript: exactly those with the Qt backend (on any platform), AppKit on
/// macOS, UIKit on iOS, or XAML on Windows; every other build answers `Unsupported`.
pub proof fn law_eval_support_table(b: Build)
    ensures
        eval_support_of(b) == Support::Native <==> (b.qt || (b.appkit && b.os == Os::MacOs) || (
        b.uikit && b.os == Os::Ios) || (b.xaml && b.os == Os::Windows)),
        eval_support_of(b) == Support::Native || eval_support_of(b) == Support::Unsupported,
{
}

/// What each build realizes: GTK on macOS or Windows renders the placeholder whatever else the
/// build carries; otherwise web-dom's `<iframe>` is an emulation; otherwise the build is native
/// exactly when it carries a backend for its platform (AppKit on macOS, UIKit on iOS, Android's
/// widgets on Android, GTK anywhere else, Qt anywhere, XAML on Windows, ArkUI on OpenHarmony),
/// and unsupported when it carries none.
pub proof fn law_support_table(b: Build)
    ensures
        b.gtk && (b.os == Os::MacOs || b.os == Os::Windows) ==> support_of(b) == Support::Unsupported,
        !(b.gtk && (b.os == Os::MacOs || b.os == Os::Windows)) && b.dom && b.wasm32 ==> support_of(b)
            == Support::Emulated,
        !(b.gtk && (b.os == Os::MacOs || b.os == Os::Windows)) && !(b.dom && b.wasm32) ==> (
        support_of(b) == Support::Native <==> ((b.appkit && b.os == Os::MacOs) || (b.uikit && b.os
            == Os::Ios) || (b.mdc && b.os == Os::Android) || b.gtk || b.qt || (b.xaml && b.os
            == Os::Windows) || (b.arkui && b.ohos))),
        !(b.gtk && (b.os == Os::MacOs || b.os == Os::Windows)) && !(b.dom && b.wasm32) ==> (
        support_of(b) == Support::Native || support_of(b) == Support::Unsupported),
{
}

} // verus!
