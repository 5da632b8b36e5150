use day_piece_webview::mapping_folder;
use std::path::Path;

/// The folder's path as text, the way the XAML renderer reads a canonical path.
fn folder(path: &str) -> String {
    mapping_folder(&Path::new(path).to_string_lossy())
}

#[test]
fn canonical_drive_folder_becomes_a_dos_path() {
    assert_eq!(
        folder(r"\\?\D:\a\day-piece-lottie\demo\build\day\assets"),
        r"D:\a\day-piece-lottie\demo\build\day\assets"
    );
    assert_eq!(
        folder(r"\\?\C:\Users\Zoë\Day demo\assets"),
        r"C:\Users\Zoë\Day demo\assets"
    );
}

#[test]
fn canonical_unc_folder_keeps_its_server_and_share() {
    assert_eq!(
        folder(r"\\?\UNC\server\share\assets"),
        r"\\server\share\assets"
    );
}

#[test]
fn other_path_spellings_are_not_reinterpreted() {
    for path in [
        r"C:\Program Files\Day\assets",
        r"\\server\share\assets",
        r"assets",
        r"\\?\Volume{1234}\assets",
        r"\\.\device",
    ] {
        assert_eq!(folder(path), path);
    }
}

#[test]
fn a_drive_needs_a_letter_a_colon_and_a_backslash() {
    assert_eq!(mapping_folder(r"\\?\1:\x"), r"\\?\1:\x");
    assert_eq!(mapping_folder(r"\\?\é:\x"), r"\\?\é:\x");
    assert_eq!(mapping_folder(r"\\?\D:"), r"\\?\D:");
    assert_eq!(mapping_folder(r"\\?\D:/x"), r"\\?\D:/x");
    assert_eq!(mapping_folder(r"\\?\z:\"), r"z:\");
    assert_eq!(mapping_folder(r"\\?\UNC\"), r"\\");
    assert_eq!(mapping_folder(""), "");
}
