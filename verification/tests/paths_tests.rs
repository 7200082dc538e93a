use skopio::locations::{
    choose_db_path, db_filename, derive_xcode_project_name, extract_project_name, get_db_name,
    resolve_db_path,
};
use skopio::paths::{extension, file_name, file_stem, join};

#[test]
fn file_name_of_ordinary_paths() {
    assert_eq!(file_name("/Users/me/project"), Some("project".to_string()));
    assert_eq!(file_name("/Users/me/project/"), Some("project".to_string()));
    assert_eq!(file_name("main.rs"), Some("main.rs".to_string()));
    assert_eq!(file_name("/a/b/."), Some("b".to_string()));
}

#[test]
fn file_name_absent() {
    assert_eq!(file_name(""), None);
    assert_eq!(file_name("/"), None);
    assert_eq!(file_name("/a/.."), None);
}

#[test]
fn stems_and_extensions() {
    assert_eq!(file_stem("/x/App.xcodeproj"), Some("App".to_string()));
    assert_eq!(file_stem("archive.tar.gz"), Some("archive.tar".to_string()));
    assert_eq!(file_stem(".bashrc"), Some(".bashrc".to_string()));
    assert_eq!(extension("archive.tar.gz"), Some("gz".to_string()));
    assert_eq!(extension(".bashrc"), None);
    assert_eq!(extension("Makefile"), None);
    assert_eq!(extension("/src/lib.rs"), Some("rs".to_string()));
}

#[test]
fn join_puts_one_separator() {
    assert_eq!(join("/a", "b.db"), "/a/b.db");
    assert_eq!(join("/a/", "b.db"), "/a/b.db");
    assert_eq!(join("", "b.db"), "b.db");
}

#[test]
fn project_names() {
    assert_eq!(extract_project_name("/home/user/skopio"), "skopio");
    assert_eq!(extract_project_name(""), "");
    assert_eq!(extract_project_name("/"), "");
    assert_eq!(derive_xcode_project_name("/Users/me/Demo/Demo.xcodeproj"), Some("Demo".to_string()));
    assert_eq!(derive_xcode_project_name(""), None);
}

#[test]
fn database_file_names() {
    assert_eq!(db_filename("code", false), "skopio-code-data.db");
    assert_eq!(db_filename("code", true), "skopio-code-test-data.db");
    assert_eq!(get_db_name(false), "skopio_desktop.db");
    assert_eq!(get_db_name(true), "skopio_desktop_test.db");
}

#[test]
fn database_path_in_directory_or_file() {
    assert_eq!(resolve_db_path("/data", "vim", true, false), "/data/skopio-vim-data.db");
    assert_eq!(resolve_db_path("/data/my.db", "vim", false, false), "/data/my.db");
}

#[test]
fn db_path_choice_prefers_given_directory() {
    let c = choose_db_path(
        Some("/tmp/dir".to_string()),
        true,
        Some("/stored.db".to_string()),
        "/config",
        "zed",
        false,
    );
    assert_eq!(c.path, "/tmp/dir/skopio-zed-data.db");
    assert!(c.store);
}

#[test]
fn db_path_choice_reuses_stored_path() {
    let c = choose_db_path(None, false, Some("/stored.db".to_string()), "/config", "zed", false);
    assert_eq!(c.path, "/stored.db");
    assert!(!c.store);
}

#[test]
fn db_path_choice_defaults_to_config_dir() {
    let c = choose_db_path(None, false, None, "/config", "zed", true);
    assert_eq!(c.path, "/config/skopio-zed-test-data.db");
    assert!(c.store);
}

#[test]
fn joined_file_name_reads_back() {
    for base in ["", "/", "/a", "/a/", "rel/dir"] {
        for name in ["b.db", "skopio-code-data.db", "...x"] {
            assert_eq!(file_name(&join(base, name)), Some(name.to_string()));
        }
    }
}
