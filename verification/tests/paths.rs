use latchnott::paths::{is_absolute_path, join_path};
use latchnott::storage::notes_storage_path;

#[test]
fn absolute_paths_have_prefix_and_root() {
    assert!(is_absolute_path(r"C:\Latchnott"));
    assert!(is_absolute_path("d:/data"));
    assert!(is_absolute_path(r"\\server\share\notes"));
    assert!(!is_absolute_path(r"C:relative"));
    assert!(!is_absolute_path(r"\rooted"));
    assert!(!is_absolute_path("data"));
    assert!(!is_absolute_path(""));
}

#[test]
fn join_appends_relative_paths_with_one_separator() {
    assert_eq!(join_path(r"C:\Latchnott", "storage"), r"C:\Latchnott\storage");
    assert_eq!(join_path(r"C:\Latchnott\", "storage"), r"C:\Latchnott\storage");
    assert_eq!(join_path("C:/Latchnott/", "storage"), "C:/Latchnott/storage");
    assert_eq!(join_path("C:", "storage"), "C:storage");
    assert_eq!(join_path("", "storage"), "storage");
}

#[test]
fn join_replaces_or_rebases_rooted_paths() {
    assert_eq!(join_path(r"C:\Latchnott", r"D:\Data"), r"D:\Data");
    assert_eq!(join_path(r"C:\Latchnott", r"D:data"), r"D:data");
    assert_eq!(join_path(r"C:\Latchnott", r"\Data"), r"C:\Data");
    assert_eq!(join_path(r"\\server\share\x", r"\Data"), r"\\server\share\Data");
    assert_eq!(join_path("relative", r"\Data"), r"\Data");
}

#[test]
fn notes_file_is_inside_the_data_directory() {
    assert_eq!(
        notes_storage_path(r"C:\Users\Test\AppData\Roaming\Latchnott\data"),
        r"C:\Users\Test\AppData\Roaming\Latchnott\data\notes.json"
    );
}

#[test]
fn verbatim_prefixes_are_kept_whole() {
    assert_eq!(join_path(r"\\?\UNC\srv\share\cfg", r"\x"), r"\\?\UNC\srv\share\x");
    assert_eq!(join_path(r"\\?\C:\Latchnott", r"\Data"), r"\\?\C:\Data");
    assert!(is_absolute_path(r"\\?\C:\x"));
    assert!(is_absolute_path(r"\\.\COM1"));
    assert!(is_absolute_path(r"\\?\UNC\srv\share"));
}

#[test]
fn joining_onto_a_verbatim_base_drops_dot_components() {
    assert_eq!(join_path(r"\\?\C:\a\b", r"..\c\.\d"), r"\\?\C:\a\c\d");
    assert_eq!(join_path(r"\\?\C:\a\", "x/y"), r"\\?\C:\a\x\y");
    assert_eq!(join_path(r"\\?\C:\a", "data"), r"\\?\C:\a\data");
    assert_eq!(join_path(r"\\?\C:", "data"), r"\\?\C:\data");
}

#[test]
fn unc_prefix_needs_server_and_share() {
    assert!(!is_absolute_path(r"\\server"));
    assert_eq!(join_path(r"\\server", "x"), r"\\server\x");
    assert_eq!(join_path(r"C:\base", r"\\server"), r"C:\\server");
}
