use handy::paths::file_name;
use handy::paths::join;

/// What the standard library does on the system that the tests run on.
fn std_join(base: &str, path: &str) -> String {
    std::path::Path::new(base).join(path).to_string_lossy().into_owned()
}

#[test]
fn paths_are_joined_as_the_system_does() {
    let windows = std::path::MAIN_SEPARATOR == '\\';
    for base in ["", "/", "/tmp", "/tmp/", "a", r"a\"] {
        for path in ["", "x", "x/y", "/x", "//x", r"\x", "C:x"] {
            assert_eq!(join(base, path, windows), std_join(base, path), "{base} {path}");
        }
    }
}

#[test]
fn windows_paths_keep_their_drive() {
    assert_eq!(join(r"C:\Temp", "x", true), r"C:\Temp\x");
    assert_eq!(join(r"C:\Temp\", "x", true), r"C:\Temp\x");
    assert_eq!(join("C:/Temp/", "x", true), "C:/Temp/x");
    assert_eq!(join("C:", "x", true), "C:x");
    assert_eq!(join("", "x", true), "x");
    assert_eq!(join(r"C:\Temp", r"\x", true), r"C:\x");
    assert_eq!(join(r"C:\Temp", r"D:\x", true), r"D:\x");
    assert_eq!(join(r"C:\Temp", "D:x", true), "D:x");
    assert_eq!(join(r"\\server\share\me", "/x", true), r"\\server\share/x");
    assert_eq!(join(r"C:\Temp", r"\\server\share\x", true), r"\\server\share\x");
    assert_eq!(join("/tmp", "x", true), r"/tmp\x");
}

#[test]
fn a_file_name_is_what_stands_behind_the_last_separator() {
    assert_eq!(file_name("/x/a.wav", false).as_deref(), Some("a.wav"));
    assert_eq!(file_name("a.wav", false).as_deref(), Some("a.wav"));
    assert_eq!(file_name("", false), None);
    assert_eq!(file_name("/", false), None);
    assert_eq!(file_name(r"C:\x\a.wav", true).as_deref(), Some("a.wav"));
    assert_eq!(file_name(r"C:\x\a.wav", false).as_deref(), Some(r"C:\x\a.wav"));
    let joined = join("/x", "日本.wav", false);
    assert_eq!(file_name(&joined, false).as_deref(), Some("日本.wav"));
}
