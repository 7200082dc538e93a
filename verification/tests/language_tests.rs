use skopio::language::{
    contents_language, contents_needed,
    detect_language, get_xcode_project_details, language_from_extension, normalize_file,
    xcode_entity,
};

#[test]
fn languages_by_extension() {
    assert_eq!(language_from_extension("/src/main.rs"), Some("Rust".to_string()));
    assert_eq!(language_from_extension("/App/View.swift"), Some("Swift".to_string()));
    assert_eq!(language_from_extension("/docs/README.md"), Some("Markdown".to_string()));
    assert_eq!(language_from_extension("/bin/tool"), None);
    assert_eq!(language_from_extension("/x/file.unknownext"), None);
}

#[test]
fn percent_encoded_paths_are_decoded_first() {
    // `%2E` is a dot: the extension only appears after decoding
    assert_eq!(language_from_extension("/src/main%2Ers"), Some("Rust".to_string()));
}

#[test]
fn contents_language_is_the_fallback() {
    assert_eq!(detect_language("/x/Makefile", Some("Makefile".to_string())), Some("Makefile".to_string()));
    assert_eq!(detect_language("/x/lib.rs", Some("Python".to_string())), Some("Rust".to_string()));
    assert_eq!(detect_language("/x/noext", None), None);
}

#[test]
fn file_references_are_normalised() {
    assert_eq!(normalize_file(""), None);
    assert_eq!(normalize_file("/plain/path.swift"), Some("/plain/path.swift".to_string()));
    assert_eq!(
        normalize_file("file:///Users/me/My%20App/main.swift"),
        Some("/Users/me/My App/main.swift".to_string())
    );
    assert_eq!(normalize_file("file://relative.swift"), Some("/relative.swift".to_string()));
    assert_eq!(normalize_file("file:///bad%FF"), None);
}

#[test]
fn xcode_entities() {
    assert_eq!(xcode_entity("file:///Users/me/a.swift"), "/Users/me/a.swift");
    assert_eq!(xcode_entity("file://file:///x.swift"), "/x.swift");
    assert_eq!(xcode_entity("/Users/me/b.swift"), "/Users/me/b.swift");
    assert_eq!(xcode_entity("No active document"), "unknown");
    assert_eq!(xcode_entity("unknown"), "unknown");
}

#[test]
fn xcode_project_details_from_reports() {
    let d = get_xcode_project_details(
        "/Users/me/App/App.xcodeproj",
        "file:///Users/me/App/main.swift",
        None,
    );
    assert_eq!(d.project_path.as_deref(), Some("/Users/me/App/App.xcodeproj"));
    assert_eq!(d.project_name.as_deref(), Some("App.xcodeproj"));
    assert_eq!(d.entity_name, "/Users/me/App/main.swift");
    assert_eq!(d.language_name.as_deref(), Some("Swift"));
}

#[test]
fn xcode_project_details_without_project() {
    let d = get_xcode_project_details("unknown", "No active document", Some("Text".to_string()));
    assert_eq!(d.project_path, None);
    assert_eq!(d.project_name, None);
    assert_eq!(d.entity_name, "unknown");
    assert_eq!(d.language_name.as_deref(), Some("Text"));
    let e = get_xcode_project_details("", "x", None);
    assert_eq!(e.project_path, None);
    let f = get_xcode_project_details("/trailing/", "x", None);
    assert_eq!(f.project_name.as_deref(), Some(""));
}

#[test]
fn contents_are_read_only_without_a_known_extension() {
    assert!(!contents_needed("/src/main.rs"));
    assert!(contents_needed("/bin/tool"));
    assert!(contents_needed("/x/file.unknownext"));
}

#[test]
fn the_language_with_most_code_wins() {
    let stats = vec![("Rust".to_string(), 10u64), ("Python".to_string(), 30), ("Shell".to_string(), 30), ("C".to_string(), 2)];
    assert_eq!(contents_language(&stats), Some("Shell".to_string()));
    assert_eq!(
        contents_language(&stats).as_deref(),
        stats.iter().max_by_key(|s| s.1).map(|s| s.0.as_str())
    );
    assert_eq!(contents_language(&vec![]), None);
    let one = vec![("Makefile".to_string(), 0u64)];
    assert_eq!(contents_language(&one), Some("Makefile".to_string()));
}
