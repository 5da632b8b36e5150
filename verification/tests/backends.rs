use day_piece_webview::{
    android_command, arkui_command, eval_support, site_navigation_proceeds, support, Build, Os,
    Support, WebPatch, KIND,
};

fn build(os: Os) -> Build {
    Build {
        appkit: false,
        uikit: false,
        mdc: false,
        gtk: false,
        qt: false,
        xaml: false,
        arkui: false,
        dom: false,
        os,
        wasm32: false,
        ohos: false,
    }
}

#[test]
fn the_platform_table() {
    let appkit = Build { appkit: true, ..build(Os::MacOs) };
    assert_eq!((support(&appkit), eval_support(&appkit)), (Support::Native, Support::Native));
    let uikit = Build { uikit: true, ..build(Os::Ios) };
    assert_eq!((support(&uikit), eval_support(&uikit)), (Support::Native, Support::Native));
    let android = Build { mdc: true, ..build(Os::Android) };
    assert_eq!((support(&android), eval_support(&android)), (Support::Native, Support::Unsupported));
    let qt = Build { qt: true, ..build(Os::Linux) };
    assert_eq!((support(&qt), eval_support(&qt)), (Support::Native, Support::Native));
    let gtk = Build { gtk: true, ..build(Os::Linux) };
    assert_eq!((support(&gtk), eval_support(&gtk)), (Support::Native, Support::Unsupported));
    let xaml = Build { xaml: true, ..build(Os::Windows) };
    assert_eq!((support(&xaml), eval_support(&xaml)), (Support::Native, Support::Native));
    let arkui = Build { arkui: true, ohos: true, ..build(Os::Linux) };
    assert_eq!((support(&arkui), eval_support(&arkui)), (Support::Native, Support::Unsupported));
    let dom = Build { dom: true, wasm32: true, ..build(Os::Other) };
    assert_eq!((support(&dom), eval_support(&dom)), (Support::Emulated, Support::Unsupported));
}

#[test]
fn gtk_off_linux_renders_the_placeholder() {
    for os in [Os::MacOs, Os::Windows] {
        let b = Build { gtk: true, ..build(os) };
        assert_eq!(support(&b), Support::Unsupported);
    }
    // The GTK gap is checked before any other backend the build carries.
    let both = Build { gtk: true, appkit: true, ..build(Os::MacOs) };
    assert_eq!(support(&both), Support::Unsupported);
    assert_eq!(eval_support(&both), Support::Native);
}

#[test]
fn xaml_evaluates_only_on_windows() {
    let off = Build { xaml: true, ..build(Os::Linux) };
    assert_eq!((support(&off), eval_support(&off)), (Support::Unsupported, Support::Unsupported));
}

#[test]
fn a_build_with_no_backend_for_its_platform_is_unsupported() {
    let b = Build { appkit: true, ..build(Os::Linux) };
    assert_eq!(support(&b), Support::Unsupported);
    assert_eq!(eval_support(&b), Support::Unsupported);
    assert_eq!(support(&build(Os::Other)), Support::Unsupported);
}

#[test]
fn android_commands_cross_as_code_and_url() {
    assert_eq!(android_command(&WebPatch::Load("https://a.example".into())), Some((0, "https://a.example")));
    assert_eq!(android_command(&WebPatch::Back), Some((1, "")));
    assert_eq!(android_command(&WebPatch::Forward), Some((2, "")));
    assert_eq!(android_command(&WebPatch::Stop), Some((3, "")));
    assert_eq!(android_command(&WebPatch::Reload), Some((4, "")));
    assert_eq!(android_command(&WebPatch::Eval { req: 1, script: "x".into() }), None);
}

#[test]
fn arkui_commands_cross_as_word_and_argument() {
    assert_eq!(arkui_command(&WebPatch::Load("u".into())), Some(("load", "u")));
    assert_eq!(arkui_command(&WebPatch::Back), Some(("back", "")));
    assert_eq!(arkui_command(&WebPatch::Forward), Some(("forward", "")));
    assert_eq!(arkui_command(&WebPatch::Stop), Some(("stop", "")));
    assert_eq!(arkui_command(&WebPatch::Reload), Some(("reload", "")));
    assert_eq!(arkui_command(&WebPatch::Eval { req: 1, script: "x".into() }), None);
}

#[test]
fn navigation_inside_the_site_proceeds() {
    let site = "file:///cache/day-web/app/site/";
    assert!(site_navigation_proceeds("file:///cache/day-web/app/site/page.html", site, false));
    assert!(site_navigation_proceeds("about:blank", site, false));
    assert!(!site_navigation_proceeds("https://daybrite.dev/", site, false));
    assert!(!site_navigation_proceeds("file:///cache/day-web/app/other.html", site, false));
    assert!(!site_navigation_proceeds("about:blankx", site, false));
}

#[test]
fn new_windows_always_leave_the_view() {
    let site = "file:///site/";
    assert!(!site_navigation_proceeds("file:///site/page.html", site, true));
    assert!(!site_navigation_proceeds("about:blank", site, true));
}

#[test]
fn the_piece_kind() {
    assert_eq!(KIND, "day.piece.webview");
}
