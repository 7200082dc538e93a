use skopio::monitored_app::MonitoredApp;
use skopio::ax::{
    active_app_from, browser_info, browser_tab_script, get_browser_active_tab, CHROME_TAB_SCRIPT,
    FIREFOX_TAB_SCRIPT, SAFARI_TAB_SCRIPT, is_xcode_compiling, is_xcode_debugging, parse_active_tab, root_search_start,
    root_search_step, scan_xcode_dir, xcode_document_path, xcode_info, ActiveApp, AxError,
    AxNodeInfo, AxQueryPlan, AxSnapshot, RefreshStep, browser_query, AxSnapshotCache, AxSnapshotCacheConfig, BrowserInfo,
    DirScan, RootSearch, XcodeInfo, XcodeWindowView,
};

#[test]
fn browser_tab_from_url() {
    let b = browser_info("com.google.Chrome", Ok("  https://github.com/org/repo?tab=1  ".to_string())).unwrap();
    assert_eq!(b.url, "https://github.com/org/repo?tab=1");
    assert_eq!(b.domain, "github.com");
    assert_eq!(b.path, "/org/repo?tab=1");
}

#[test]
fn browser_tab_with_ip_host_uses_host() {
    let b = browser_info("com.apple.Safari", Ok("http://127.0.0.1:8080/x".to_string())).unwrap();
    assert_eq!(b.domain, "127.0.0.1");
    assert_eq!(b.path, "/x");
}

#[test]
fn browser_tab_without_host_uses_scheme() {
    let b = browser_info("com.apple.Safari", Ok("about:blank".to_string())).unwrap();
    assert_eq!(b.domain, "about");
}

#[test]
fn browser_tab_errors() {
    assert!(matches!(browser_info("com.apple.dt.Xcode", Ok("https://a.b".to_string())), Err(AxError::UnsupportedApp)));
    assert!(matches!(browser_info("com.google.Chrome", Ok("   ".to_string())), Err(AxError::NotAvailable)));
    assert!(matches!(browser_info("com.google.Chrome", Err(AxError::NoFocusedWindow)), Err(AxError::NoFocusedWindow)));
    assert!(matches!(browser_info("com.google.Chrome", Ok("not a url".to_string())), Err(AxError::ParseError(_))));
}

#[test]
fn xcode_documents() {
    assert_eq!(xcode_document_path("file:///Users/me/A%20B.swift"), "/Users/me/A B.swift");
    assert_eq!(xcode_document_path(""), "unknown");
    let x = xcode_info("/p/App/main.swift".to_string(), Some("/p/App/App.xcodeproj".to_string()));
    assert_eq!(x.project_path.as_deref(), Some("/p/App/App.xcodeproj"));
    assert_eq!(x.project_name.as_deref(), Some("App"));
    let u = xcode_info("unknown".to_string(), Some("/p".to_string()));
    assert_eq!(u.project_path, None);
    assert_eq!(u.project_name, None);
}

#[test]
fn project_roots_in_a_directory() {
    let entries = vec![Some("README.md".to_string()), Some("App.xcodeproj".to_string())];
    match scan_xcode_dir("/p", &entries) {
        DirScan::Found(r) => assert_eq!(r, "/p/App.xcodeproj"),
        other => panic!("unexpected {:?}", other),
    }
    let manifest = vec![Some("Package.swift".to_string()), Some("x.xcworkspace".to_string())];
    match scan_xcode_dir("/q", &manifest) {
        DirScan::Found(r) => assert_eq!(r, "/q"),
        other => panic!("unexpected {:?}", other),
    }
    assert!(matches!(scan_xcode_dir("/r", &vec![Some("a.txt".to_string())]), DirScan::NotFound));
    assert!(matches!(scan_xcode_dir("/r", &vec![None, Some("a.xcodeproj".to_string())]), DirScan::GiveUp));
}

fn node(role: &str, title: Option<&str>, id: Option<&str>, enabled: Option<bool>, in_range: bool) -> AxNodeInfo {
    AxNodeInfo {
        role: Some(role.to_string()),
        title: title.map(|s| s.to_string()),
        description: None,
        identifier: id.map(|s| s.to_string()),
        enabled,
        value_in_progress_range: in_range,
    }
}

#[test]
fn xcode_build_detection() {
    assert!(matches!(is_xcode_compiling(&XcodeWindowView::NoAccess), Err(AxError::AccessibilityNotGranted)));
    assert_eq!(is_xcode_compiling(&XcodeWindowView::NoWindow).unwrap(), false);
    let progress = XcodeWindowView::Window { toolbar: vec![node("AXProgressIndicator", None, None, None, true)], first_text: None };
    assert!(is_xcode_compiling(&progress).unwrap());
    let label = XcodeWindowView::Window { toolbar: vec![node("AXStaticText", Some("Linking App"), None, None, false)], first_text: None };
    assert!(is_xcode_compiling(&label).unwrap());
    let text = XcodeWindowView::Window { toolbar: vec![], first_text: Some(node("AXStaticText", Some("Compiling main.swift"), None, None, false)) };
    assert!(is_xcode_compiling(&text).unwrap());
    let idle = XcodeWindowView::Window { toolbar: vec![node("AXStaticText", Some("Ready"), None, None, false)], first_text: None };
    assert!(!is_xcode_compiling(&idle).unwrap());
}

#[test]
fn xcode_debug_detection() {
    let stop = XcodeWindowView::Window {
        toolbar: vec![node("AXButton", None, Some("DebuggerStopButton"), Some(true), false)],
        first_text: None,
    };
    assert!(is_xcode_debugging(&stop).unwrap());
    let disabled = XcodeWindowView::Window {
        toolbar: vec![node("AXButton", Some("Stop"), None, Some(false), false)],
        first_text: None,
    };
    assert!(!is_xcode_debugging(&disabled).unwrap());
    let running = XcodeWindowView::Window { toolbar: vec![node("AXStaticText", Some("Running App"), None, None, false)], first_text: None };
    assert!(is_xcode_debugging(&running).unwrap());
    assert!(matches!(is_xcode_debugging(&XcodeWindowView::NoAccess), Err(AxError::AccessibilityNotGranted)));
}

fn app(bundle: &str) -> ActiveApp {
    ActiveApp { name: "App".to_string(), bundle_id: bundle.to_string(), pid: 7, path: "/Apps/App".to_string() }
}

fn tab(domain: &str) -> BrowserInfo {
    BrowserInfo { domain: domain.to_string(), url: format!("https://{}/", domain), path: "/".to_string() }
}

fn plan_of(step: RefreshStep) -> AxQueryPlan {
    match step {
        RefreshStep::Query(p) => p,
        other => panic!("unexpected {:?}", other),
    }
}

#[test]
fn cache_reuses_a_recent_snapshot() {
    let mut c = AxSnapshotCache::new(AxSnapshotCacheConfig { max_age: 500 });
    assert!(c.snapshot(0).is_none());
    let p = plan_of(c.refresh_now(Ok(app("com.google.Chrome")), 1000));
    assert!(c.snapshot(1000).is_none());
    assert_eq!(p.title_pid, 7);
    assert_eq!(p.browser, Some(("com.google.Chrome".to_string(), 7)));
    assert_eq!(p.xcode_pid, None);
    let s = c.refresh_with(p.app, Ok("Tab".to_string()), Some(Ok(tab("a.com"))), None, 1000);
    assert_eq!(s.window_title.as_deref(), Some("Tab"));
    assert!(s.xcode.is_none());
    assert!(c.snapshot(1500).is_some());
    assert!(c.snapshot(1501).is_none());
}

#[test]
fn refresh_queries_only_what_the_app_has() {
    let mut c = AxSnapshotCache::new(AxSnapshotCacheConfig { max_age: 0 });
    let p = plan_of(c.refresh_now(Ok(app("com.google.Chrome")), 0));
    c.refresh_with(p.app, Err(AxError::NoFocusedWindow), Some(Ok(tab("a.com"))), None, 0);

    let x = plan_of(c.refresh_now(Ok(app("com.apple.dt.Xcode")), 10));
    assert_eq!(x.browser, None);
    assert_eq!(x.xcode_pid, Some(7));
    let s = c.refresh_with(
        x.app,
        Ok("main.swift".to_string()),
        None,
        Some(Ok(XcodeInfo { entity_path: "/x.swift".to_string(), project_path: None, project_name: None })),
        10,
    );
    assert_eq!(s.browser.as_ref().unwrap().domain, "a.com");
    assert_eq!(s.xcode.as_ref().unwrap().entity_path, "/x.swift");

    let f = plan_of(c.refresh_now(Ok(app("com.figma.Desktop")), 15));
    assert_eq!((f.browser, f.xcode_pid), (None, None));

    match c.refresh_now(Err(AxError::NoFrontmostApplication), 20) {
        RefreshStep::Finished(none) => {
            assert!(none.app.is_none() && none.browser.is_none() && none.window_title.is_none());
        }
        other => panic!("unexpected {:?}", other),
    }
    assert!(c.snapshot(20).unwrap().app.is_none());
    let _ = AxSnapshot::empty();
}

#[test]
fn tab_reading_is_refused_for_other_apps() {
    assert!(matches!(browser_query("com.apple.Safari", 3), Ok(3)));
    assert!(matches!(browser_query("com.apple.dt.Xcode", 3), Err(AxError::UnsupportedApp)));
}

#[test]
fn active_tab_script_output() {
    let (d, u, t) = parse_active_tab("https://docs.rs/url ||  url - Rust ");
    assert_eq!((d.as_str(), u.as_str(), t.as_str()), ("docs.rs", "https://docs.rs/url", "url - Rust"));
    let (d, u, t) = parse_active_tab("No active tab");
    assert_eq!((d.as_str(), u.as_str(), t.as_str()), ("unknown", "unknown", "unknown"));
    let (d, u, t) = parse_active_tab("not a url");
    assert_eq!((d.as_str(), u.as_str(), t.as_str()), ("unknown", "not a url", "unknown"));
    let (_, _, t) = parse_active_tab("https://a.b||one||two");
    assert_eq!(t, "one");
}

#[test]
fn project_root_search_walks_up() {
    let entity = "/p/App/Sources/main.swift";
    let dir = match root_search_start(entity) {
        RootSearch::Read(d) => d,
        other => panic!("unexpected {:?}", other),
    };
    assert_eq!(dir, "/p/App/Sources");
    let up = match root_search_step(entity, &dir, Some(vec![Some("main.swift".to_string())])) {
        RootSearch::Read(d) => d,
        other => panic!("unexpected {:?}", other),
    };
    assert_eq!(up, "/p/App");
    match root_search_step(entity, &up, Some(vec![Some("App.xcodeproj".to_string())])) {
        RootSearch::Done(Some(r)) => assert_eq!(r, "/p/App/App.xcodeproj"),
        other => panic!("unexpected {:?}", other),
    }
    match root_search_step(entity, "/p", None) {
        RootSearch::Read(d) => assert_eq!(d, "/"),
        other => panic!("unexpected {:?}", other),
    }
    match root_search_step(entity, "/", Some(vec![])) {
        RootSearch::Done(Some(r)) => assert_eq!(r, "/p/App/Sources"),
        other => panic!("unexpected {:?}", other),
    }
    assert!(matches!(root_search_step(entity, "/p", Some(vec![None])), RootSearch::Done(None)));
    assert!(matches!(root_search_start(""), RootSearch::Done(None)));
    assert!(matches!(root_search_start("/"), RootSearch::Done(None)));
}

#[test]
fn frontmost_app_fills_in_unknowns() {
    let a = active_app_from(None, Some("com.apple.Safari".to_string()), 3, None);
    assert_eq!(a.name, "unknown");
    assert_eq!(a.bundle_id, "com.apple.Safari");
    assert_eq!(a.pid, 3);
    assert_eq!(a.path, "unknown");
}

#[test]
fn browser_tab_scripts_by_app() {
    assert_eq!(browser_tab_script(&MonitoredApp::Chrome), Some(CHROME_TAB_SCRIPT));
    assert_eq!(browser_tab_script(&MonitoredApp::Firefox), Some(FIREFOX_TAB_SCRIPT));
    assert_eq!(browser_tab_script(&MonitoredApp::Safari), Some(SAFARI_TAB_SCRIPT));
    assert_eq!(browser_tab_script(&MonitoredApp::Brave), None);
    assert!(CHROME_TAB_SCRIPT.contains("tell application \"Google Chrome\""));
    assert!(SAFARI_TAB_SCRIPT.contains("current tab of front window"));
    assert!(FIREFOX_TAB_SCRIPT.contains("clipboard_content & \"||unknown\""));
    let unknown = ("unknown".to_string(), "unknown".to_string(), "unknown".to_string());
    assert_eq!(get_browser_active_tab(&MonitoredApp::Xcode, "https://a.com||T"), unknown);
    assert_eq!(get_browser_active_tab(&MonitoredApp::Chrome, "No active tab"), unknown);
    assert_eq!(
        get_browser_active_tab(&MonitoredApp::Safari, "https://docs.rs/x||Docs"),
        ("docs.rs".to_string(), "https://docs.rs/x".to_string(), "Docs".to_string())
    );
}
