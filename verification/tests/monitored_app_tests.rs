use skopio::ax::{AxSnapshot, BrowserInfo, XcodeInfo};
use skopio::monitored_app::{
    get_browser_category, get_open_apps, get_xcode_category, is_documentation_entity,
    is_ignored_bundle, is_xcode_bundle, list_open_apps, resolve_app_details, ActivationPolicy,
    Category, Entity, MonitoredApp, RunningApp, TrackedApp, XcodeSignals,
};

const ALL: [MonitoredApp; 22] = [
    MonitoredApp::Brave,
    MonitoredApp::Chrome,
    MonitoredApp::ChromeBeta,
    MonitoredApp::ChromeCanary,
    MonitoredApp::Code,
    MonitoredApp::Figma,
    MonitoredApp::Firefox,
    MonitoredApp::Github,
    MonitoredApp::Postman,
    MonitoredApp::Safari,
    MonitoredApp::SafariPreview,
    MonitoredApp::Terminal,
    MonitoredApp::Iterm,
    MonitoredApp::Xcode,
    MonitoredApp::Notion,
    MonitoredApp::ArcBrowser,
    MonitoredApp::Dia,
    MonitoredApp::Warp,
    MonitoredApp::Zoom,
    MonitoredApp::Windsurf,
    MonitoredApp::Cursor,
    MonitoredApp::Unknown,
];

fn quiet() -> XcodeSignals {
    XcodeSignals { compiling: false, debugging: false, file_language: None }
}

#[test]
fn bundle_ids_round_trip() {
    for a in ALL {
        assert_eq!(MonitoredApp::from_bundle_id(a.bundle_id()), a);
    }
    assert_eq!(MonitoredApp::Xcode.bundle_id(), "com.apple.dt.Xcode");
    assert_eq!(MonitoredApp::Cursor.bundle_id(), "com.todesktop.230313mzl4w4u92");
    assert_eq!(MonitoredApp::from_bundle_id("org.example.Nothing"), MonitoredApp::Unknown);
    assert_eq!(MonitoredApp::from_bundle_id(""), MonitoredApp::Unknown);
}

#[test]
fn category_and_entity_names_round_trip() {
    let cats = [
        Category::Browsing,
        Category::Coding,
        Category::Compiling,
        Category::Debugging,
        Category::Designing,
        Category::CodeReviewing,
        Category::Meeting,
        Category::Learning,
        Category::Planning,
        Category::WritingDocs,
        Category::Other,
    ];
    for c in cats {
        assert_eq!(Category::from_name(c.name()), Some(c));
    }
    assert_eq!(Category::CodeReviewing.name(), "Code Reviewing");
    assert_eq!(Category::WritingDocs.name(), "Writing Docs");
    assert_eq!(Category::from_name("coding"), None);
    for e in [Entity::File, Entity::App, Entity::Url] {
        assert_eq!(Entity::from_name(e.name()), Some(e));
    }
    assert_eq!(Entity::from_name("Folder"), None);
}

#[test]
fn browsers_and_ignored_apps() {
    assert!(MonitoredApp::Firefox.is_browser());
    assert!(MonitoredApp::Dia.is_browser());
    assert!(!MonitoredApp::Xcode.is_browser());
    assert!(MonitoredApp::Code.ignored_reason().is_some());
    assert!(MonitoredApp::Unknown.ignored_reason().is_none());
    assert!(is_ignored_bundle("com.exafunction.windsurf"));
    assert!(!is_ignored_bundle("com.apple.Safari"));
    assert!(is_xcode_bundle("com.apple.dt.Xcode"));
    assert!(!is_xcode_bundle("com.apple.Terminal"));
}

#[test]
fn browser_categories() {
    assert_eq!(get_browser_category("https://github.com/org/repo/pull/1"), Category::CodeReviewing);
    assert_eq!(get_browser_category("https://meet.google.com/abc"), Category::Meeting);
    assert_eq!(get_browser_category("https://app.slack.com/call/x"), Category::Meeting);
    assert_eq!(get_browser_category("https://www.udemy.com/course"), Category::Learning);
    assert_eq!(get_browser_category("https://stackoverflow.com/q/1"), Category::Coding);
    assert_eq!(get_browser_category("https://news.ycombinator.com"), Category::Browsing);
}

#[test]
fn application_categories() {
    let s = quiet();
    assert_eq!(MonitoredApp::Figma.get_category(None, None, &s), Category::Designing);
    assert_eq!(MonitoredApp::Warp.get_category(None, None, &s), Category::Coding);
    assert_eq!(MonitoredApp::Chrome.get_category(None, None, &s), Category::Browsing);
    assert_eq!(
        MonitoredApp::Chrome.get_category(None, Some("https://zoom.us/j/1"), &s),
        Category::Meeting
    );
    assert_eq!(MonitoredApp::Xcode.get_category(Some("/a/b.swift"), None, &s), Category::Coding);
    assert_eq!(MonitoredApp::Unknown.get_category(None, None, &s), Category::Other);
    assert_eq!(MonitoredApp::Safari.get_entity_type(), Entity::Url);
    assert_eq!(MonitoredApp::Xcode.get_entity_type(), Entity::File);
    assert_eq!(MonitoredApp::Zoom.get_entity_type(), Entity::App);
}

#[test]
fn xcode_categories() {
    let building = XcodeSignals { compiling: true, debugging: true, file_language: None };
    assert_eq!(get_xcode_category("/a.swift", &building), Category::Compiling);
    let debugging = XcodeSignals { compiling: false, debugging: true, file_language: None };
    assert_eq!(get_xcode_category("/a.swift", &debugging), Category::Debugging);
    assert_eq!(get_xcode_category("/README.md", &quiet()), Category::WritingDocs);
    assert_eq!(get_xcode_category("/main.swift", &quiet()), Category::Coding);
    assert!(is_documentation_entity("/notes.md", None));
    assert!(is_documentation_entity("/notes", Some("Tex".to_string())));
    assert!(!is_documentation_entity("/notes", None));
}

fn browser_snapshot(url: &str, domain: &str, path: &str) -> AxSnapshot {
    AxSnapshot {
        app: None,
        window_title: Some("Title".to_string()),
        browser: Some(BrowserInfo { domain: domain.to_string(), url: url.to_string(), path: path.to_string() }),
        xcode: None,
    }
}

#[test]
fn browser_details_from_the_tab() {
    let snap = browser_snapshot("https://github.com/a/b", "github.com", "/a/b");
    let d = resolve_app_details(&MonitoredApp::Chrome, "Google Chrome", "/Apps/Chrome", "Title", &snap, &quiet());
    assert_eq!(d.project_name.as_deref(), Some("github.com"));
    assert_eq!(d.project_path.as_deref(), Some("https://github.com/a/b"));
    assert_eq!(d.entity, "/a/b");
    assert_eq!(d.entity_type, Entity::Url);
    assert_eq!(d.category, Category::CodeReviewing);
    assert_eq!(d.language, None);
}

#[test]
fn browser_without_tab_is_the_app() {
    let snap = browser_snapshot("", "github.com", "/a");
    let d = resolve_app_details(&MonitoredApp::Safari, "Safari", "/Apps/Safari", "Start Page", &snap, &quiet());
    assert_eq!(d.project_name.as_deref(), Some("safari"));
    assert_eq!(d.project_path.as_deref(), Some("/Apps/Safari"));
    assert_eq!(d.entity, "Start Page");
    assert_eq!(d.entity_type, Entity::App);
    assert_eq!(d.category, Category::Browsing);
}

#[test]
fn xcode_details_fill_in_missing_parts() {
    let snap = AxSnapshot {
        app: None,
        window_title: Some("Notes.md".to_string()),
        browser: None,
        xcode: Some(XcodeInfo { entity_path: "  ".to_string(), project_path: Some(String::new()), project_name: None }),
    };
    let d = resolve_app_details(&MonitoredApp::Xcode, "Xcode", "/Apps/Xcode", "ignored", &snap, &quiet());
    assert_eq!(d.entity, "Notes.md");
    assert_eq!(d.project_path.as_deref(), Some("/Apps/Xcode"));
    assert_eq!(d.project_name.as_deref(), Some("xcode"));
    assert_eq!(d.language.as_deref(), Some("Markdown"));
    assert_eq!(d.category, Category::WritingDocs);
    assert_eq!(d.entity_type, Entity::File);
}

#[test]
fn xcode_details_from_the_snapshot() {
    let snap = AxSnapshot {
        app: None,
        window_title: None,
        browser: None,
        xcode: Some(XcodeInfo {
            entity_path: "/p/Sources/App.swift".to_string(),
            project_path: Some("/p/App.xcodeproj".to_string()),
            project_name: Some("App".to_string()),
        }),
    };
    let sig = XcodeSignals { compiling: true, debugging: false, file_language: None };
    let d = resolve_app_details(&MonitoredApp::Xcode, "Xcode", "/Apps/Xcode", "", &snap, &sig);
    assert_eq!(d.entity, "/p/Sources/App.swift");
    assert_eq!(d.project_name.as_deref(), Some("App"));
    assert_eq!(d.language.as_deref(), Some("Swift"));
    assert_eq!(d.category, Category::Compiling);
    let none = resolve_app_details(&MonitoredApp::Xcode, "Xcode", "/Apps/Xcode", "", &AxSnapshot::empty(), &quiet());
    assert_eq!(none.entity, "unknown");
}

#[test]
fn other_apps_are_the_app_itself() {
    let d = resolve_app_details(&MonitoredApp::Figma, "Figma", "/Apps/Figma", "Design", &AxSnapshot::empty(), &quiet());
    assert_eq!(d.project_name.as_deref(), Some("figma"));
    assert_eq!(d.entity, "Design");
    assert_eq!(d.entity_type, Entity::App);
    assert_eq!(d.category, Category::Designing);
}

#[test]
fn open_apps_carry_block_reasons() {
    let apps = vec![
        TrackedApp { name: "Code".to_string(), bundle_id: "com.microsoft.VSCode".to_string() },
        TrackedApp { name: "Xcode".to_string(), bundle_id: "com.apple.dt.Xcode".to_string() },
    ];
    let r = get_open_apps(apps);
    assert_eq!(r.len(), 2);
    assert_eq!(r[0].app.name, "Code");
    assert_eq!(
        r[0].block_reason.as_deref(),
        Some("An editor extension for Visual Studio Code is available to capture more accurate data")
    );
    assert_eq!(r[1].app.bundle_id, "com.apple.dt.Xcode");
    assert_eq!(r[1].block_reason, None);
}

#[test]
fn only_regular_apps_are_listed() {
    let running = vec![
        RunningApp { policy: ActivationPolicy::Regular, name: Some("Xcode".to_string()), bundle_id: Some("com.apple.dt.Xcode".to_string()) },
        RunningApp { policy: ActivationPolicy::Accessory, name: Some("Menu".to_string()), bundle_id: None },
        RunningApp { policy: ActivationPolicy::Prohibited, name: None, bundle_id: None },
        RunningApp { policy: ActivationPolicy::Regular, name: None, bundle_id: None },
    ];
    let apps = list_open_apps(&running);
    assert_eq!(apps.len(), 2);
    assert_eq!((apps[0].name.as_str(), apps[0].bundle_id.as_str()), ("Xcode", "com.apple.dt.Xcode"));
    assert_eq!((apps[1].name.as_str(), apps[1].bundle_id.as_str()), ("unknown", "unknown"));
}
