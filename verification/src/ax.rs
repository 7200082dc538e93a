//! What the accessibility layer reports about the frontmost application,
//! and the decisions taken on it: browser details from a tab's URL, the
//! Xcode document, snapshot caching and the build/debug state of Xcode.

use vstd::prelude::*;
use crate::monitored_app::{MonitoredApp, app_for_bundle_id, is_browser_app, or_unknown, text_or_unknown};
use crate::text::{trim, trimmed, occurs_in, contains_str, str_eq, to_chars};
use crate::paths::{join, join_of, extension, extension_of, file_stem_of};
use crate::language::{normalize_file, normalized_file};
use crate::locations::derive_xcode_project_name;

verus! {

/// Why an accessibility query gave no answer.
#[derive(Debug)]
pub enum AxError {
    AccessibilityNotGranted,
    NoFrontmostApplication,
    NoFocusedWindow,
    /// The named attribute could not be read.
    AxTraversalFailed(String),
    UnsupportedApp,
    NotAvailable,
    /// The URL did not parse; the parser's message.
    ParseError(String),
    Unknown,
}

/// The frontmost application.
#[derive(Debug, Clone)]
pub struct ActiveApp {
    pub name: String,
    pub bundle_id: String,
    pub pid: i32,
    pub path: String,
}

/// The active tab of a browser.
#[derive(Debug, Clone)]
pub struct BrowserInfo {
    pub domain: String,
    pub url: String,
    pub path: String,
}

/// The active document of Xcode.
#[derive(Debug, Clone)]
pub struct XcodeInfo {
    pub entity_path: String,
    pub project_path: Option<String>,
    pub project_name: Option<String>,
}

/// One reading of the accessibility state.
#[derive(Debug, Clone)]
pub struct AxSnapshot {
    pub app: Option<ActiveApp>,
    pub window_title: Option<String>,
    pub browser: Option<BrowserInfo>,
    pub xcode: Option<XcodeInfo>,
}

impl AxSnapshot {
    /// A snapshot that knows nothing.
    pub fn empty() -> (s: AxSnapshot)
        ensures
            s.app is None,
            s.window_title is None,
            s.browser is None,
            s.xcode is None,
    {
        AxSnapshot { app: None, window_title: None, browser: None, xcode: None }
    }
}

/// The frontmost application from what the system told: a missing name,
/// bundle identifier or executable path reads `unknown`.
pub fn active_app_from(name: Option<String>, bundle_id: Option<String>, pid: i32, path: Option<String>) -> (a: ActiveApp)
    ensures
        a.name@ == or_unknown(name),
        a.bundle_id@ == or_unknown(bundle_id),
        a.pid == pid,
        a.path@ == or_unknown(path),
{
    ActiveApp {
        name: text_or_unknown(&name),
        bundle_id: text_or_unknown(&bundle_id),
        pid,
        path: text_or_unknown(&path),
    }
}

/// What the `url` crate makes of a text: for a URL, its domain, its host,
/// its scheme and the text from its path on; for other text, the parse
/// error's message.
pub uninterp spec fn parsed_url(s: Seq<char>) -> Result<(Option<Seq<char>>, Option<Seq<char>>, Seq<char>, Seq<char>), Seq<char>>;

/// Calls `url::Url::parse(s)` and reads the result's `domain()`,
/// `host_str()`, `scheme()` and `&url[Position::BeforePath..]`. Claims
/// the result is the named parse, which depends on `s` alone, and that a
/// parsed URL's scheme is not empty (the parser requires it to start with
/// a letter when there is no base URL).
#[verifier::external_body]
fn parse_url(s: &str) -> (r: Result<(Option<String>, Option<String>, String, String), String>)
    ensures
        r matches Ok(p) ==> p.2@.len() > 0,
        match r {
            Ok(p) => parsed_url(s@) == Ok::<(Option<Seq<char>>, Option<Seq<char>>, Seq<char>, Seq<char>), Seq<char>>(
                (p.0.deep_view(), p.1.deep_view(), p.2@, p.3@),
            ),
            Err(m) => parsed_url(s@) == Err::<(Option<Seq<char>>, Option<Seq<char>>, Seq<char>, Seq<char>), Seq<char>>(m@),
        },
{
    let u = url::Url::parse(s).map_err(|e| e.to_string())?;
    Ok((
        u.domain().map(|d| d.to_string()),
        u.host_str().map(|h| h.to_string()),
        u.scheme().to_string(),
        u[url::Position::BeforePath..].to_string(),
    ))
}

/// The site name of a parsed URL: its domain, else its host, unless
/// empty, else its scheme.
pub open spec fn site_of(domain: Option<Seq<char>>, host: Option<Seq<char>>, scheme: Seq<char>) -> Seq<char> {
    let d = match domain {
        Some(d) => Some(d),
        None => host,
    };
    match d {
        Some(x) => if x.len() > 0 { x } else { scheme },
        None => scheme,
    }
}

/// The first step of reading the tab of application `bundle_id`
/// (process `pid`): an application that is not a browser is refused
/// before any accessibility query; for a browser, the process whose URL
/// must be read. The URL read then goes to [`browser_info`].
pub fn browser_query(bundle_id: &str, pid: i32) -> (r: Result<i32, AxError>)
    ensures
        is_browser_app(app_for_bundle_id(bundle_id@)) ==> r == Ok::<i32, AxError>(pid),
        !is_browser_app(app_for_bundle_id(bundle_id@)) ==> r matches Err(AxError::UnsupportedApp),
{
    if MonitoredApp::from_bundle_id(bundle_id).is_browser() {
        Ok(pid)
    } else {
        Err(AxError::UnsupportedApp)
    }
}

/// Whether a browser tab could be read: the frontmost application must be
/// a browser; then the accessibility `raw_url` must be readable, non-blank
/// and a URL.
pub open spec fn browser_info_ok(bundle_id: Seq<char>, raw_url: Result<String, AxError>) -> bool {
    is_browser_app(app_for_bundle_id(bundle_id)) && (raw_url matches Ok(u) && trimmed(u@).len() > 0
        && parsed_url(trimmed(u@)) is Ok)
}

/// The active tab of the browser `bundle_id`, from the URL read through
/// accessibility (`raw_url`, or why it could not be read).
pub fn browser_info(bundle_id: &str, raw_url: Result<String, AxError>) -> (r: Result<BrowserInfo, AxError>)
    ensures
        r is Ok <==> browser_info_ok(bundle_id@, raw_url),
        !is_browser_app(app_for_bundle_id(bundle_id@)) ==> r matches Err(AxError::UnsupportedApp),
        is_browser_app(app_for_bundle_id(bundle_id@)) && (raw_url matches Ok(u) && trimmed(u@).len() == 0) ==> r matches Err(AxError::NotAvailable),
        is_browser_app(app_for_bundle_id(bundle_id@)) && raw_url is Err ==> r == Err::<BrowserInfo, AxError>(raw_url->Err_0),
        is_browser_app(app_for_bundle_id(bundle_id@)) && (raw_url matches Ok(u) && trimmed(u@).len() > 0
            && parsed_url(trimmed(u@)) is Err) ==> (r matches Err(AxError::ParseError(m))
            && m@ == parsed_url(trimmed(raw_url->Ok_0@))->Err_0),
        r matches Ok(b) ==> b.domain@.len() > 0,
        r matches Ok(b) ==> {
            let u = trimmed(raw_url->Ok_0@);
            let (domain, host, scheme, tail) = parsed_url(u)->Ok_0;
            &&& b.url@ == u
            &&& b.domain@ == site_of(domain, host, scheme)
            &&& b.path@ == tail
        },
{
    if !MonitoredApp::from_bundle_id(bundle_id).is_browser() {
        return Err(AxError::UnsupportedApp);
    }
    let raw = match raw_url {
        Ok(u) => u,
        Err(e) => return Err(e),
    };
    let url = trim(raw.as_str());
    if to_chars(url.as_str()).len() == 0 {
        return Err(AxError::NotAvailable);
    }
    let (domain, host, scheme, tail) = match parse_url(url.as_str()) {
        Ok(p) => p,
        Err(m) => return Err(AxError::ParseError(m)),
    };
    let d = match domain {
        Some(d) => Some(d),
        None => host,
    };
    let site = match d {
        Some(x) => if to_chars(x.as_str()).len() > 0 {
            x
        } else {
            scheme
        },
        None => scheme,
    };
    Ok(BrowserInfo { domain: site, url, path: tail })
}

/// The Xcode document path from the window's document attribute (`raw`,
/// empty when unreadable): the normalised file, or `unknown`.
pub open spec fn xcode_document_path_of(raw: Seq<char>) -> Seq<char> {
    match normalized_file(raw) {
        Some(p) => p,
        None => "unknown"@,
    }
}

/// The Xcode document path from the window's document attribute.
pub fn xcode_document_path(raw: &str) -> (r: String)
    ensures
        r@ == xcode_document_path_of(raw@),
{
    match normalize_file(raw) {
        Some(p) => p,
        None => String::from_str("unknown"),
    }
}

/// Xcode's document details, given its document path and the project
/// root found for it (`None` when there is none, or the path is
/// `unknown`); the project is named after the root's stem.
pub fn xcode_info(entity_path: String, project_root: Option<String>) -> (r: XcodeInfo)
    ensures
        r.entity_path == entity_path,
        r.project_path.deep_view() == (if entity_path@ != "unknown"@ { project_root.deep_view() } else { None }),
        r.project_name.deep_view() == (match r.project_path {
            Some(p) => file_stem_of(p@),
            None => None,
        }),
{
    let project_path = if !str_eq(entity_path.as_str(), "unknown") {
        project_root
    } else {
        None
    };
    let project_name = match &project_path {
        Some(p) => derive_xcode_project_name(p.as_str()),
        None => None,
    };
    XcodeInfo { entity_path, project_path, project_name }
}

/// Names marking the root of an Xcode project, as file names or
/// extensions.
pub open spec fn is_xcode_marker(s: Seq<char>) -> bool {
    s == "xcworkspace"@ || s == "xcodeproj"@ || s == "Package.swift"@ || s == "project.pbxproj"@
        || s == "playground"@ || s == "xcplayground"@
}

/// Whether a directory entry named `name` marks a project root.
pub open spec fn marks_root(name: Seq<char>) -> bool {
    is_xcode_marker(name) || match extension_of(name) {
        Some(e) => is_xcode_marker(e),
        None => false,
    }
}

/// The root that a marking entry `name` in `dir` designates: the
/// directory itself for manifest files, else the entry.
pub open spec fn root_for(dir: Seq<char>, name: Seq<char>) -> Seq<char> {
    if name == "Package.swift"@ || name == "project.pbxproj"@ { dir } else { join_of(dir, name) }
}

/// What the scan of one directory found.
#[derive(Debug)]
pub enum DirScan {
    /// A project root.
    Found(String),
    /// An entry name is not valid Unicode: the search gives up.
    GiveUp,
    /// No marker here.
    NotFound,
}

/// What scanning the entries of `dir` in order finds: the root of the
/// first marking entry, or that an entry name is not valid Unicode, or
/// nothing, whichever comes first.
pub open spec fn scan_outcome(dir: Seq<char>, entries: Seq<Option<String>>, r: DirScan) -> bool {
    match r {
        DirScan::Found(root) => exists|i: int| 0 <= i < entries.len() && {
            &&& ((#[trigger] entries[i]) matches Some(n) && marks_root(n@) && root@ == root_for(dir, n@))
            &&& forall|j: int| 0 <= j < i ==> ((#[trigger] entries[j]) matches Some(m) && !marks_root(m@))
        },
        DirScan::GiveUp => exists|i: int| 0 <= i < entries.len() && (#[trigger] entries[i]) is None && (forall|j: int|
            0 <= j < i ==> ((#[trigger] entries[j]) matches Some(m) && !marks_root(m@))),
        DirScan::NotFound => forall|j: int| 0 <= j < entries.len() ==> ((#[trigger] entries[j]) matches Some(m) && !marks_root(m@)),
    }
}

/// Scans the entries of `dir` (their names; `None` for a name that is
/// not valid Unicode) for an Xcode project root, in order.
pub fn scan_xcode_dir(dir: &str, entries: &Vec<Option<String>>) -> (r: DirScan)
    ensures
        scan_outcome(dir@, entries@, r),
{
    let mut i: usize = 0;
    while i < entries.len()
        invariant
            i <= entries@.len(),
            forall|j: int| 0 <= j < i ==> ((#[trigger] entries@[j]) matches Some(m) && !marks_root(m@)),
        decreases entries@.len() - i,
    {
        match &entries[i] {
            None => return DirScan::GiveUp,
            Some(name) => {
                let n = name.as_str();
                let ext_marks = match extension(n) {
                    Some(e) => is_marker(e.as_str()),
                    None => false,
                };
                if is_marker(n) || ext_marks {
                    let root = if str_eq(n, "Package.swift") || str_eq(n, "project.pbxproj") {
                        String::from_str(dir)
                    } else {
                        join(dir, n)
                    };
                    return DirScan::Found(root);
                }
            },
        }
        i += 1;
    }
    DirScan::NotFound
}

/// What `std::path::Path::parent` gives for `p`: the path without its
/// final component, if it has one.
pub uninterp spec fn path_parent(p: Seq<char>) -> Option<Seq<char>>;

/// Calls `std::path::Path::new(p).parent()`. Claims the result is the
/// named parent, which depends on `p` alone, and (as the documentation
/// says it drops the final component) is shorter than `p`.
#[verifier::external_body]
fn parent_dir(p: &str) -> (r: Option<String>)
    ensures
        r.deep_view() == path_parent(p@),
        r matches Some(q) ==> q@.len() < p@.len(),
{
    std::path::Path::new(p).parent().map(|q| q.to_string_lossy().into_owned())
}

/// Where the search for an Xcode project root stands.
#[derive(Debug)]
pub enum RootSearch {
    /// List the entries of this directory and take the next step.
    Read(String),
    /// The search is over, with the root found (if any).
    Done(Option<String>),
}

/// The search begins in the directory holding the document, if it has
/// one.
pub open spec fn root_search_start_of(entity: Seq<char>) -> RootSearchView {
    match path_parent(entity) {
        Some(d) => RootSearchView::Read(d),
        None => RootSearchView::Done(None),
    }
}

/// A search step as plain values.
pub enum RootSearchView {
    Read(Seq<char>),
    Done(Option<Seq<char>>),
}

impl View for RootSearch {
    type V = RootSearchView;

    open spec fn view(&self) -> RootSearchView {
        match self {
            RootSearch::Read(d) => RootSearchView::Read(d@),
            RootSearch::Done(r) => RootSearchView::Done(r.deep_view()),
        }
    }
}

/// After looking at `dir` (its entry names, or `None` when it could not
/// be read): a marker ends the search with its root; an entry name that
/// is not valid Unicode ends it with none; otherwise the search moves to
/// the parent directory, and past the top it falls back to the
/// document's directory.
pub open spec fn root_search_next(entity: Seq<char>, dir: Seq<char>, listing: Option<Seq<Option<String>>>, scan: DirScan) -> RootSearchView {
    let moved = match path_parent(dir) {
        Some(p) => RootSearchView::Read(p),
        None => RootSearchView::Done(path_parent(entity)),
    };
    match listing {
        None => moved,
        Some(_) => match scan {
            DirScan::Found(r) => RootSearchView::Done(Some(r@)),
            DirScan::GiveUp => RootSearchView::Done(None),
            DirScan::NotFound => moved,
        },
    }
}

/// The first step of the search for the project root of the document at
/// `entity`.
pub fn root_search_start(entity: &str) -> (r: RootSearch)
    ensures
        r@ == root_search_start_of(entity@),
{
    match parent_dir(entity) {
        Some(d) => RootSearch::Read(d),
        None => RootSearch::Done(None),
    }
}

/// One step of the search for the project root of the document at
/// `entity`: `listing` holds the entry names of `dir` (see
/// [`scan_xcode_dir`]), or is `None` when `dir` could not be read. Each
/// step moves to a shorter directory, so the search ends.
pub fn root_search_step(entity: &str, dir: &str, listing: Option<Vec<Option<String>>>) -> (r: RootSearch)
    ensures
        match listing {
            None => r@ == root_search_next(entity@, dir@, None, DirScan::NotFound),
            Some(entries) => exists|scan: DirScan| {
                &&& r@ == root_search_next(entity@, dir@, Some(entries@), scan)
                &&& scan_outcome(dir@, entries@, scan)
            },
        },
        r matches RootSearch::Read(next) ==> next@.len() < dir@.len(),
{
    let scan = match &listing {
        None => DirScan::NotFound,
        Some(entries) => scan_xcode_dir(dir, entries),
    };
    match scan {
        DirScan::Found(root) => {
            proof {
                assert(listing is Some);
            }
            RootSearch::Done(Some(root))
        },
        DirScan::GiveUp => RootSearch::Done(None),
        DirScan::NotFound => match parent_dir(dir) {
            Some(p) => RootSearch::Read(p),
            None => match parent_dir(entity) {
                Some(e) => RootSearch::Done(Some(e)),
                None => RootSearch::Done(None),
            },
        },
    }
}

fn is_marker(s: &str) -> (r: bool)
    ensures
        r == is_xcode_marker(s@),
{
    str_eq(s, "xcworkspace") || str_eq(s, "xcodeproj") || str_eq(s, "Package.swift") || str_eq(
        s,
        "project.pbxproj",
    ) || str_eq(s, "playground") || str_eq(s, "xcplayground")
}

/// What the accessibility layer shows of one element of Xcode's window.
#[derive(Debug)]
pub struct AxNodeInfo {
    pub role: Option<String>,
    pub title: Option<String>,
    pub description: Option<String>,
    pub identifier: Option<String>,
    pub enabled: Option<bool>,
    /// Whether the element's value is a finite number in (0, 1].
    pub value_in_progress_range: bool,
}

/// What could be read of Xcode's focused window.
#[derive(Debug)]
pub enum XcodeWindowView {
    /// The application element could not be created.
    NoAccess,
    /// There is no focused window.
    NoWindow,
    /// The elements of the toolbar subtree (none without a toolbar), and
    /// the first static text found in the window (within twelve levels),
    /// if any.
    Window { toolbar: Vec<AxNodeInfo>, first_text: Option<AxNodeInfo> },
}

/// `first` when present, else `second`.
pub open spec fn either(first: Option<String>, second: Option<String>) -> Option<Seq<char>> {
    match first {
        Some(s) => Some(s@),
        None => match second {
            Some(s) => Some(s@),
            None => None,
        },
    }
}

/// Whether `t` is present and mentions one of the three words.
pub open spec fn mentions3(t: Option<Seq<char>>, a: Seq<char>, b: Seq<char>, c: Seq<char>) -> bool {
    t matches Some(s) && (occurs_in(a, s) || occurs_in(b, s) || occurs_in(c, s))
}

/// Whether a toolbar element shows a build in progress: a progress
/// indicator with a value in (0, 1] or a label about building, compiling
/// or linking, or a static text saying so.
pub open spec fn shows_build(n: AxNodeInfo) -> bool {
    (n.role matches Some(r) && r@ == "AXProgressIndicator"@ && (n.value_in_progress_range
        || mentions3(either(n.description, n.title), "Build"@, "Compile"@, "Link"@)))
    || (n.role matches Some(r) && r@ == "AXStaticText"@ && mentions3(
        either(n.title, n.description),
        "Building"@,
        "Compiling"@,
        "Linking"@,
    ))
}

/// Whether the first static text of the window reports a build.
pub open spec fn text_shows_build(n: AxNodeInfo) -> bool {
    mentions3(either(n.title, n.description), "Building"@, "Compiling"@, "Linking"@)
}

/// Whether a toolbar element shows a debug session: an enabled stop
/// button of the debugger (by identifier) or labelled stop, or a static
/// text saying something runs.
pub open spec fn shows_debugging(n: AxNodeInfo) -> bool {
    (n.role matches Some(r) && r@ == "AXButton"@ && n.enabled == Some(true) && ((n.identifier matches Some(
        id,
    ) && occurs_in("Debugger"@, id@) && occurs_in("Stop"@, id@)) || (either(n.title, n.description) matches Some(
        l,
    ) && occurs_in("Stop"@, l))))
    || (n.role matches Some(r) && r@ == "AXStaticText"@ && (either(n.title, n.description) matches Some(
        l,
    ) && occurs_in("Running"@, l)))
}

fn either_text(first: &Option<String>, second: &Option<String>) -> (r: Option<String>)
    ensures
        r.deep_view() == either(*first, *second),
{
    match first {
        Some(s) => Some(s.clone()),
        None => match second {
            Some(s) => Some(s.clone()),
            None => None,
        },
    }
}

fn mentions(t: &Option<String>, a: &str, b: &str, c: &str) -> (r: bool)
    ensures
        r == mentions3(t.deep_view(), a@, b@, c@),
{
    match t {
        Some(s) => contains_str(s.as_str(), a) || contains_str(s.as_str(), b) || contains_str(s.as_str(), c),
        None => false,
    }
}

fn role_is(n: &AxNodeInfo, role: &str) -> (r: bool)
    ensures
        r == (n.role matches Some(x) && x@ == role@),
{
    match &n.role {
        Some(x) => str_eq(x.as_str(), role),
        None => false,
    }
}

fn node_shows_build(n: &AxNodeInfo) -> (r: bool)
    ensures
        r == shows_build(*n),
{
    if role_is(n, "AXProgressIndicator") {
        if n.value_in_progress_range {
            return true;
        }
        if mentions(&either_text(&n.description, &n.title), "Build", "Compile", "Link") {
            return true;
        }
    }
    role_is(n, "AXStaticText") && mentions(&either_text(&n.title, &n.description), "Building", "Compiling", "Linking")
}

fn node_shows_debugging(n: &AxNodeInfo) -> (r: bool)
    ensures
        r == shows_debugging(*n),
{
    if role_is(n, "AXButton") {
        let enabled = match n.enabled {
            Some(e) => e,
            None => false,
        };
        if let Some(id) = &n.identifier {
            if (contains_str(id.as_str(), "Debugger") && contains_str(id.as_str(), "Stop")) && enabled {
                return true;
            }
        }
        let labeled_stop = match either_text(&n.title, &n.description) {
            Some(l) => contains_str(l.as_str(), "Stop"),
            None => false,
        };
        if labeled_stop && enabled {
            return true;
        }
    }
    role_is(n, "AXStaticText") && match either_text(&n.title, &n.description) {
        Some(l) => contains_str(l.as_str(), "Running"),
        None => false,
    }
}

/// Whether Xcode is building, from what its window shows: some toolbar
/// element shows a build, or the window's first static text reports one.
/// Without access to the application this is an error; without a window
/// it is not building.
#[verifier::loop_isolation(false)]
pub fn is_xcode_compiling(view: &XcodeWindowView) -> (r: Result<bool, AxError>)
    ensures
        match *view {
            XcodeWindowView::NoAccess => r matches Err(AxError::AccessibilityNotGranted),
            XcodeWindowView::NoWindow => r == Ok::<bool, AxError>(false),
            XcodeWindowView::Window { toolbar, first_text } => r == Ok::<bool, AxError>(
                (exists|i: int| 0 <= i < toolbar@.len() && shows_build(#[trigger] toolbar@[i]))
                    || (first_text matches Some(t) && text_shows_build(t)),
            ),
        },
{
    match view {
        XcodeWindowView::NoAccess => Err(AxError::AccessibilityNotGranted),
        XcodeWindowView::NoWindow => Ok(false),
        XcodeWindowView::Window { toolbar, first_text } => {
            let mut i: usize = 0;
            while i < toolbar.len()
                invariant
                    i <= toolbar@.len(),
                    forall|j: int| 0 <= j < i ==> !shows_build(#[trigger] toolbar@[j]),
                decreases toolbar@.len() - i,
            {
                if node_shows_build(&toolbar[i]) {
                    assert(shows_build(toolbar@[i as int]));
                    return Ok(true);
                }
                i += 1;
            }
            match first_text {
                Some(t) => Ok(mentions(&either_text(&t.title, &t.description), "Building", "Compiling", "Linking")),
                None => Ok(false),
            }
        },
    }
}

/// Whether Xcode is debugging, from what its window shows: some toolbar
/// element shows a debug session. Without access to the application this
/// is an error; without a window it is not debugging.
#[verifier::loop_isolation(false)]
pub fn is_xcode_debugging(view: &XcodeWindowView) -> (r: Result<bool, AxError>)
    ensures
        match *view {
            XcodeWindowView::NoAccess => r matches Err(AxError::AccessibilityNotGranted),
            XcodeWindowView::NoWindow => r == Ok::<bool, AxError>(false),
            XcodeWindowView::Window { toolbar, first_text } => r == Ok::<bool, AxError>(
                exists|i: int| 0 <= i < toolbar@.len() && shows_debugging(#[trigger] toolbar@[i]),
            ),
        },
{
    match view {
        XcodeWindowView::NoAccess => Err(AxError::AccessibilityNotGranted),
        XcodeWindowView::NoWindow => Ok(false),
        XcodeWindowView::Window { toolbar, first_text: _ } => {
            let mut i: usize = 0;
            while i < toolbar.len()
                invariant
                    i <= toolbar@.len(),
                    forall|j: int| 0 <= j < i ==> !shows_debugging(#[trigger] toolbar@[j]),
                decreases toolbar@.len() - i,
            {
                if node_shows_debugging(&toolbar[i]) {
                    assert(shows_debugging(toolbar@[i as int]));
                    return Ok(true);
                }
                i += 1;
            }
            Ok(false)
        },
    }
}

impl ActiveApp {
    /// An identical copy.
    pub fn duplicate(&self) -> (r: ActiveApp)
        ensures
            r == *self,
    {
        ActiveApp { name: self.name.clone(), bundle_id: self.bundle_id.clone(), pid: self.pid, path: self.path.clone() }
    }
}

impl BrowserInfo {
    /// An identical copy.
    pub fn duplicate(&self) -> (r: BrowserInfo)
        ensures
            r == *self,
    {
        BrowserInfo { domain: self.domain.clone(), url: self.url.clone(), path: self.path.clone() }
    }
}

impl XcodeInfo {
    /// An identical copy.
    pub fn duplicate(&self) -> (r: XcodeInfo)
        ensures
            r == *self,
    {
        XcodeInfo {
            entity_path: self.entity_path.clone(),
            project_path: self.project_path.clone(),
            project_name: self.project_name.clone(),
        }
    }
}

impl AxSnapshot {
    /// An identical copy.
    pub fn duplicate(&self) -> (r: AxSnapshot)
        ensures
            r == *self,
    {
        AxSnapshot {
            app: match &self.app {
                Some(a) => Some(a.duplicate()),
                None => None,
            },
            window_title: self.window_title.clone(),
            browser: match &self.browser {
                Some(b) => Some(b.duplicate()),
                None => None,
            },
            xcode: match &self.xcode {
                Some(x) => Some(x.duplicate()),
                None => None,
            },
        }
    }
}

/// How long a snapshot may be reused, in nanoseconds.
#[derive(Debug, Clone, Copy)]
pub struct AxSnapshotCacheConfig {
    pub max_age: u64,
}

/// The last snapshot taken, and when (monotonic nanoseconds).
pub struct AxSnapshotCache {
    pub cfg: AxSnapshotCacheConfig,
    pub last: Option<AxSnapshot>,
    pub last_at: Option<u64>,
}

/// What the accessibility provider must be asked once the frontmost
/// application is known: its window title always; its tab only for a
/// browser; its document only for Xcode.
#[derive(Debug)]
pub struct AxQueryPlan {
    pub app: ActiveApp,
    /// The process whose focused window's title is read.
    pub title_pid: i32,
    /// The bundle identifier and process whose tab is read, for a browser.
    pub browser: Option<(String, i32)>,
    /// The process whose document is read, for Xcode.
    pub xcode_pid: Option<i32>,
}

/// Whether `p` is the query plan for the frontmost application `a`.
pub open spec fn is_plan_for(p: AxQueryPlan, a: ActiveApp) -> bool {
    &&& p.app == a
    &&& p.title_pid == a.pid
    &&& p.browser == (if is_browser_app(app_for_bundle_id(a.bundle_id@)) { Some((a.bundle_id, a.pid)) } else { None::<(String, i32)> })
    &&& p.xcode_pid == (if app_for_bundle_id(a.bundle_id@) is Xcode { Some(a.pid) } else { None::<i32> })
}

/// Where a refresh stands after the frontmost-application query.
#[derive(Debug)]
pub enum RefreshStep {
    /// No frontmost application: the refresh is over, with this snapshot;
    /// nothing else is asked.
    Finished(AxSnapshot),
    /// Ask what the plan says, then call
    /// [`AxSnapshotCache::refresh_with`].
    Query(AxQueryPlan),
}

/// The snapshot made of the answers to a query plan for the application
/// `a`: its window title if read; its tab if read, else the last known
/// tab (an application that is not a browser has none to read); its
/// document if it is Xcode and it was read.
pub open spec fn answered(
    a: ActiveApp,
    window_title: Result<String, AxError>,
    browser: Option<Result<BrowserInfo, AxError>>,
    xcode: Option<Result<XcodeInfo, AxError>>,
    last_browser: Option<BrowserInfo>,
) -> AxSnapshot {
    AxSnapshot {
        window_title: match window_title {
            Ok(t) => Some(t),
            Err(_) => None,
        },
        browser: match browser {
            Some(Ok(b)) => Some(b),
            _ => last_browser,
        },
        xcode: if app_for_bundle_id(a.bundle_id@) is Xcode {
            match xcode {
                Some(Ok(x)) => Some(x),
                _ => None,
            }
        } else {
            None
        },
        app: Some(a),
    }
}

/// Whether the cached snapshot may be reused at `now`.
pub open spec fn cache_fresh(c: AxSnapshotCache, now: u64) -> bool {
    c.last is Some && (c.last_at matches Some(at) && (if now >= at { now - at } else { 0 }) <= c.cfg.max_age)
}

impl AxSnapshotCache {
    /// An empty cache.
    pub fn new(cfg: AxSnapshotCacheConfig) -> (c: AxSnapshotCache)
        ensures
            c.cfg == cfg,
            c.last is None,
            c.last_at is None,
    {
        AxSnapshotCache { cfg, last: None, last_at: None }
    }

    /// The cached snapshot, when it is recent enough at `now`; otherwise
    /// the caller must refresh.
    pub fn snapshot(&self, now: u64) -> (r: Option<AxSnapshot>)
        ensures
            cache_fresh(*self, now) ==> r == self.last,
            !cache_fresh(*self, now) ==> r is None,
    {
        match (&self.last, self.last_at) {
            (Some(snap), Some(at)) => {
                let age = if now >= at { now - at } else { 0 };
                if age <= self.cfg.max_age {
                    Some(snap.duplicate())
                } else {
                    None
                }
            },
            _ => None,
        }
    }

    /// Starts a refresh at `now` with the answer to the frontmost-
    /// application query: without one, the empty snapshot is kept and the
    /// refresh is over; with one, the plan of further queries is returned
    /// and the cache is unchanged.
    pub fn refresh_now(&mut self, frontmost: Result<ActiveApp, AxError>, now: u64) -> (r: RefreshStep)
        ensures
            frontmost is Err ==> (r matches RefreshStep::Finished(s) && s.app is None && s.window_title is None
                && s.browser is None && s.xcode is None && final(self).last == Some(s)
                && final(self).last_at == Some(now) && final(self).cfg == old(self).cfg),
            frontmost matches Ok(a) ==> (r matches RefreshStep::Query(p) && is_plan_for(p, a)
                && *final(self) == *old(self)),
    {
        match frontmost {
            Err(_) => {
                let out = AxSnapshot::empty();
                self.last = Some(out.duplicate());
                self.last_at = Some(now);
                RefreshStep::Finished(out)
            },
            Ok(a) => {
                let browser = if MonitoredApp::from_bundle_id(a.bundle_id.as_str()).is_browser() {
                    Some((a.bundle_id.clone(), a.pid))
                } else {
                    None
                };
                let xcode_pid = if crate::monitored_app::is_xcode_bundle(a.bundle_id.as_str()) {
                    Some(a.pid)
                } else {
                    None
                };
                let title_pid = a.pid;
                RefreshStep::Query(AxQueryPlan { app: a, title_pid, browser, xcode_pid })
            },
        }
    }

    /// Finishes a refresh at `now` with the answers to the plan for
    /// `app` (`None` for a query the plan did not ask) and keeps the
    /// snapshot (see [`answered`]).
    pub fn refresh_with(
        &mut self,
        app: ActiveApp,
        window_title: Result<String, AxError>,
        browser: Option<Result<BrowserInfo, AxError>>,
        xcode: Option<Result<XcodeInfo, AxError>>,
        now: u64,
    ) -> (r: AxSnapshot)
        ensures
            r == answered(app, window_title, browser, xcode, match old(self).last {
                Some(l) => l.browser,
                None => None,
            }),
            final(self).last == Some(r),
            final(self).last_at == Some(now),
            final(self).cfg == old(self).cfg,
    {
        let title = match window_title {
            Ok(t) => Some(t),
            Err(_) => None,
        };
        let tab = match browser {
            Some(Ok(b)) => Some(b),
            _ => match &self.last {
                Some(l) => match &l.browser {
                    Some(b) => Some(b.duplicate()),
                    None => None,
                },
                None => None,
            },
        };
        let doc = if crate::monitored_app::is_xcode_bundle(app.bundle_id.as_str()) {
            match xcode {
                Some(Ok(x)) => Some(x),
                _ => None,
            }
        } else {
            None
        };
        let out = AxSnapshot { app: Some(app), window_title: title, browser: tab, xcode: doc };
        self.last = Some(out.duplicate());
        self.last_at = Some(now);
        out
    }
}

/// A snapshot taken at `now` is what the cache hands out until it is
/// older than the configured age, and not after.
pub proof fn lemma_refreshed_snapshot_reused(c: AxSnapshotCache, s: AxSnapshot, now: u64, later: u64)
    ensures
        ({
            let c2 = AxSnapshotCache { last: Some(s), last_at: Some(now), ..c };
            &&& (later <= now || later - now <= c.cfg.max_age) ==> cache_fresh(c2, later)
            &&& (later > now && later - now > c.cfg.max_age) ==> !cache_fresh(c2, later)
        }),
{
}

/// Index of the first `||` in `s`, or -1.
pub open spec fn first_separator(s: Seq<char>) -> int
    decreases s.len(),
{
    if s.len() < 2 {
        -1
    } else if s[0] == '|' && s[1] == '|' {
        0
    } else {
        let k = first_separator(s.drop_first());
        if k < 0 { -1 } else { k + 1 }
    }
}

proof fn lemma_first_separator(s: Seq<char>)
    ensures
        -1 <= first_separator(s),
        first_separator(s) >= 0 ==> first_separator(s) + 2 <= s.len(),
    decreases s.len(),
{
    if s.len() >= 2 && !(s[0] == '|' && s[1] == '|') {
        lemma_first_separator(s.drop_first());
    }
}

/// The text before the first `||` (all of it when there is none).
pub open spec fn first_field(s: Seq<char>) -> Seq<char> {
    let k = first_separator(s);
    if k < 0 { s } else { s.take(k) }
}

/// The text between the first and second `||`, if there is a first.
pub open spec fn second_field(s: Seq<char>) -> Option<Seq<char>> {
    let k = first_separator(s);
    if k < 0 { None } else { Some(first_field(s.skip(k + 2))) }
}

fn find_separator(v: &Vec<char>, from: usize) -> (r: Option<usize>)
    requires
        from <= v@.len(),
    ensures
        match r {
            None => first_separator(v@.skip(from as int)) == -1,
            Some(k) => from <= k && k + 2 <= v@.len() && first_separator(v@.skip(from as int)) == k - from,
        },
    decreases v@.len() - from,
{
    if v.len() - from < 2 {
        return None;
    }
    if v[from] == '|' && v[from + 1] == '|' {
        return Some(from);
    }
    assert(v@.skip(from as int).drop_first() =~= v@.skip(from + 1));
    find_separator(v, from + 1)
}

/// Domain, URL and title of a browser's active tab, from the script
/// output `URL||TITLE`: fields are trimmed; a missing title reads
/// `unknown`; the domain is the URL's domain, or `unknown`. An empty
/// output or `No active tab` gives `unknown` for all three.
pub open spec fn active_tab_of(output: Seq<char>) -> (Seq<char>, Seq<char>, Seq<char>) {
    if output == "No active tab"@ || output.len() == 0 {
        ("unknown"@, "unknown"@, "unknown"@)
    } else {
        let url = trimmed(first_field(output));
        let title = match second_field(output) {
            Some(t) => trimmed(t),
            None => "unknown"@,
        };
        let domain = match parsed_url(url) {
            Ok((Some(d), _, _, _)) => d,
            _ => "unknown"@,
        };
        (domain, url, title)
    }
}

/// Reads the active tab from the browser script's output.
pub fn parse_active_tab(output: &str) -> (r: (String, String, String))
    ensures
        (r.0@, r.1@, r.2@) == active_tab_of(output@),
{
    let v = to_chars(output);
    if str_eq(output, "No active tab") || v.len() == 0 {
        return (String::from_str("unknown"), String::from_str("unknown"), String::from_str("unknown"));
    }
    assert(v@.skip(0) =~= v@);
    let (first, second) = match find_separator(&v, 0) {
        None => (crate::text::substring(&v, 0, v.len()), None),
        Some(k) => {
            let rest_start = k + 2;
            let ghost rest = v@.skip(rest_start as int);
            let end = match find_separator(&v, rest_start) {
                None => v.len(),
                Some(k2) => k2,
            };
            proof {
                lemma_first_separator(rest);
            }
            assert(v@.subrange(rest_start as int, end as int) =~= first_field(rest));
            (crate::text::substring(&v, 0, k), Some(crate::text::substring(&v, rest_start, end)))
        },
    };
    assert(first@ == first_field(output@)) by {
        assert(v@.subrange(0, v@.len() as int) =~= v@);
    }
    let url = trim(first.as_str());
    let title = match second {
        Some(t) => trim(t.as_str()),
        None => String::from_str("unknown"),
    };
    let domain = match parse_url(url.as_str()) {
        Ok((Some(d), _, _, _)) => d,
        _ => String::from_str("unknown"),
    };
    (domain, url, title)
}

/// The script reading Chrome's active tab as `URL||TITLE`.
pub const CHROME_TAB_SCRIPT: &'static str = r#"
            tell application "Google Chrome"
                if (count of windows) > 0 and (count of tabs of front window) > 0 then
                    set theTab to active tab of front window
                    set theURL to URL of the theTab
                    set theTitle to title of theTab
                    return theURL & "||" & theTitle
                else
                    return "No active tab"
                end if
            end tell
        "#;

/// The script reading Firefox's address bar (through the clipboard) as `URL||unknown`.
pub const FIREFOX_TAB_SCRIPT: &'static str = r#"
            tell application "Firefox"
                activate
                delay 0.5
                tell application "System Events"
                    keystroke "l" using command down
                    delay 0.2
                    keystroke "c" using command down
                end tell
                delay 0.2
                set clipboard_content to the clipboard
                return clipboard_content & "||unknown"
            end tell
        "#;

/// The script reading Safari's current tab as `URL||TITLE`.
pub const SAFARI_TAB_SCRIPT: &'static str = r#"
            tell application "Safari"
                if (count of windows) > 0 and (count of tabs of front window) > 0 then
                    set theTab to current tab of front window
                    set theURL to URL of theTab
                    set theTitle to name of theTab
                    return theURL & "||" & theTitle
                else
                    return "No active tab"
                end if
            end tell
        "#;

/// The script that reads the active tab of the browser `app`: Chrome,
/// Firefox and Safari have one; other applications none.
pub open spec fn tab_script_of(app: MonitoredApp) -> Option<Seq<char>> {
    match app {
        MonitoredApp::Chrome => Some(CHROME_TAB_SCRIPT@),
        MonitoredApp::Firefox => Some(FIREFOX_TAB_SCRIPT@),
        MonitoredApp::Safari => Some(SAFARI_TAB_SCRIPT@),
        _ => None,
    }
}

/// The script to run for the active tab of `app`, if it has one.
pub fn browser_tab_script(app: &MonitoredApp) -> (r: Option<&'static str>)
    ensures
        match r {
            Some(t) => tab_script_of(*app) == Some(t@),
            None => tab_script_of(*app) is None,
        },
{
    match app {
        MonitoredApp::Chrome => Some(CHROME_TAB_SCRIPT),
        MonitoredApp::Firefox => Some(FIREFOX_TAB_SCRIPT),
        MonitoredApp::Safari => Some(SAFARI_TAB_SCRIPT),
        _ => None,
    }
}

/// Domain, URL and title of the active tab of `app`: `unknown` for all
/// three when `app` has no tab script (none is run); otherwise read from
/// `script_output`, the trimmed output of running its script (`unknown`
/// when it could not be run).
pub fn get_browser_active_tab(app: &MonitoredApp, script_output: &str) -> (r: (String, String, String))
    ensures
        tab_script_of(*app) is None ==> (r.0@, r.1@, r.2@) == ("unknown"@, "unknown"@, "unknown"@),
        tab_script_of(*app) is Some ==> (r.0@, r.1@, r.2@) == active_tab_of(script_output@),
{
    match browser_tab_script(app) {
        None => (String::from_str("unknown"), String::from_str("unknown"), String::from_str("unknown")),
        Some(_) => parse_active_tab(script_output),
    }
}

} // verus!
