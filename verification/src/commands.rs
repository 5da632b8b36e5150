//! How each backend reads a [`WebPatch`], and the link policy a bundled site runs under.
//!
//! Android and HarmonyOS carry commands across their language boundary as plain values: Android
//! as a number and a URL, ArkTS as a command word and an argument. Neither has an evaluation path
//! yet, so an evaluation command has no form there (`eval_support` answers `Unsupported` on both,
//! so the front end never sends one).

use vstd::prelude::*;
use crate::props::WebPatch;
use crate::text::{begins_with, same_text, text_begins_with};

verus! {

broadcast use vstd::string::group_string_axioms;

/// The `(code, url)` pair Android's `webCommand` takes for a command: 0 load, 1 back, 2 forward,
/// 3 stop, 4 reload, with the URL empty except for a load.
pub open spec fn android_form(patch: WebPatch) -> Option<(i32, Seq<char>)> {
    match patch {
        WebPatch::Load(u) => Some((0i32, u@)),
        WebPatch::Back => Some((1i32, Seq::empty())),
        WebPatch::Forward => Some((2i32, Seq::empty())),
        WebPatch::Stop => Some((3i32, Seq::empty())),
        WebPatch::Reload => Some((4i32, Seq::empty())),
        WebPatch::Eval { .. } => None,
    }
}

/// The command as Android's `webCommand` takes it; `None` for an evaluation, which has no
/// Android form.
pub fn android_command(patch: &WebPatch) -> (r: Option<(i32, &str)>)
    ensures
        match (r, android_form(*patch)) {
            (Some((code, url)), Some((c, u))) => code == c && url@ == u,
            (None, None) => true,
            _ => false,
        },
{
    proof {
        reveal_strlit("");
    }
    match patch {
        WebPatch::Load(u) => Some((0, u.as_str())),
        WebPatch::Back => Some((1, "")),
        WebPatch::Forward => Some((2, "")),
        WebPatch::Stop => Some((3, "")),
        WebPatch::Reload => Some((4, "")),
        WebPatch::Eval { .. } => None,
    }
}

/// The `(command, argument)` pair the ArkTS web component takes.
pub open spec fn arkui_form(patch: WebPatch) -> Option<(Seq<char>, Seq<char>)> {
    match patch {
        WebPatch::Load(u) => Some(("load"@, u@)),
        WebPatch::Back => Some(("back"@, Seq::empty())),
        WebPatch::Forward => Some(("forward"@, Seq::empty())),
        WebPatch::Stop => Some(("stop"@, Seq::empty())),
        WebPatch::Reload => Some(("reload"@, Seq::empty())),
        WebPatch::Eval { .. } => None,
    }
}

/// The command as the ArkTS web component takes it; `None` for an evaluation, which has no
/// ArkTS arm yet.
pub fn arkui_command(patch: &WebPatch) -> (r: Option<(&'static str, &str)>)
    ensures
        match (r, arkui_form(*patch)) {
            (Some((cmd, arg)), Some((c, a))) => cmd@ == c && arg@ == a,
            (None, None) => true,
            _ => false,
        },
{
    proof {
        reveal_strlit("");
    }
    match patch {
        WebPatch::Load(u) => Some(("load", u.as_str())),
        WebPatch::Back => Some(("back", "")),
        WebPatch::Forward => Some(("forward", "")),
        WebPatch::Stop => Some(("stop", "")),
        WebPatch::Reload => Some(("reload", "")),
        WebPatch::Eval { .. } => None,
    }
}

/// A navigation stays inside a bundled site when it is a navigation of the view itself (not a
/// request for a new window, which has nowhere to open) to a URL under the site's base, or to
/// `about:blank`. Every other navigation is cancelled and reported, and the app's link policy
/// decides what happens to it.
pub open spec fn stays_in_site(uri: Seq<char>, site: Seq<char>, new_window: bool) -> bool {
    !new_window && (begins_with(uri, site) || uri == "about:blank"@)
}

/// Whether the view may proceed with a navigation to `uri` while it shows the bundled site based
/// at `site`; `false` means the navigation is cancelled and reported.
pub fn site_navigation_proceeds(uri: &str, site: &str, new_window: bool) -> (r: bool)
    ensures
        r == stays_in_site(uri@, site@, new_window),
{
    if new_window {
        return false;
    }
    text_begins_with(uri, site) || same_text(uri, "about:blank")
}

/// A request for a new window never proceeds inside the view, wherever it points: there is no
/// window to open it in, so it is always handed to the link policy.
pub proof fn law_new_windows_leave_the_view(uri: Seq<char>, site: Seq<char>)
    ensures
        !stays_in_site(uri, site, true),
{
}

/// Every page of the site stays inside the view.
pub proof fn law_site_pages_stay(site: Seq<char>, page: Seq<char>)
    ensures
        stays_in_site(site + page, site, false),
{
    assert((site + page).take(site.len() as int) == site);
}

/// Android's command table: a load crosses as code 0 with its URL unchanged, character for
/// character; back, forward, stop and reload cross as 1, 2, 3 and 4 with an empty URL; an
/// evaluation does not cross.
pub proof fn law_android_commands(url: String, req: u64, script: String)
    ensures
        android_form(WebPatch::Load(url)) == Some((0i32, url@)),
        android_form(WebPatch::Back) == Some((1i32, Seq::<char>::empty())),
        android_form(WebPatch::Forward) == Some((2i32, Seq::<char>::empty())),
        android_form(WebPatch::Stop) == Some((3i32, Seq::<char>::empty())),
        android_form(WebPatch::Reload) == Some((4i32, Seq::<char>::empty())),
        android_form(WebPatch::Eval { req, script }) is None,
{
}

/// ArkTS's command table: a load crosses as `load` with its URL unchanged; the history commands
/// cross as their names with an empty argument; an evaluation does not cross.
pub proof fn law_arkui_commands(url: String, req: u64, script: String)
    ensures
        arkui_form(WebPatch::Load(url)) == Some((seq!['l', 'o', 'a', 'd'], url@)),
        arkui_form(WebPatch::Back) == Some((seq!['b', 'a', 'c', 'k'], Seq::<char>::empty())),
        arkui_form(WebPatch::Forward) == Some(
            (seq!['f', 'o', 'r', 'w', 'a', 'r', 'd'], Seq::<char>::empty()),
        ),
        arkui_form(WebPatch::Stop) == Some((seq!['s', 't', 'o', 'p'], Seq::<char>::empty())),
        arkui_form(WebPatch::Reload) == Some(
            (seq!['r', 'e', 'l', 'o', 'a', 'd'], Seq::<char>::empty()),
        ),
        arkui_form(WebPatch::Eval { req, script }) is None,
{
    reveal_strlit("load");
    reveal_strlit("back");
    reveal_strlit("forward");
    reveal_strlit("stop");
    reveal_strlit("reload");
}

/// The bundled-site policy: a navigation proceeds in the view exactly when it is not a request
/// for a new window and its URI starts with the site's base or is exactly `about:blank`; every
/// other navigation is cancelled and reported.
pub proof fn law_site_policy(uri: Seq<char>, site: Seq<char>, new_window: bool)
    ensures
        stays_in_site(uri, site, new_window) <==> (!new_window && ((site.len() <= uri.len()
            && uri.take(site.len() as int) == site) || uri == seq![
            'a',
            'b',
            'o',
            'u',
            't',
            ':',
            'b',
            'l',
            'a',
            'n',
            'k',
        ])),
{
    reveal_strlit("about:blank");
    assert("about:blank"@ =~= seq!['a', 'b', 'o', 'u', 't', ':', 'b', 'l', 'a', 'n', 'k']);
}

} // verus!
