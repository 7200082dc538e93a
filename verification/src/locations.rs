//! Where the apps keep their databases, and the project names derived
//! from paths.

use vstd::prelude::*;
use crate::paths::{file_name, file_stem, join, join_of, file_name_of, file_stem_of};

verus! {

/// File name of an app's CLI database; debug builds use a test file.
pub open spec fn db_filename_of(app: Seq<char>, debug_build: bool) -> Seq<char> {
    if debug_build {
        "skopio-"@ + app + "-test-data.db"@
    } else {
        "skopio-"@ + app + "-data.db"@
    }
}

/// Where the CLI database of `app` goes for the user-given `dir`: inside
/// it when it is a directory, else `dir` itself is the database file.
pub open spec fn resolved_db_path(dir: Seq<char>, app: Seq<char>, dir_is_dir: bool, debug_build: bool) -> Seq<char> {
    if dir_is_dir {
        join_of(dir, db_filename_of(app, debug_build))
    } else {
        dir
    }
}

/// The database file name of the CLI for `app` (`skopio-{app}-data.db`,
/// or `skopio-{app}-test-data.db` in debug builds).
pub fn db_filename(app: &str, debug_build: bool) -> (r: String)
    ensures
        r@ == db_filename_of(app@, debug_build),
{
    let s = String::from_str("skopio-");
    let s = s.concat(app);
    if debug_build {
        s.concat("-test-data.db")
    } else {
        s.concat("-data.db")
    }
}

/// The database file name of the desktop app.
pub fn get_db_name(debug_build: bool) -> (r: String)
    ensures
        r@ == (if debug_build { "skopio_desktop_test.db"@ } else { "skopio_desktop.db"@ }),
{
    if debug_build {
        String::from_str("skopio_desktop_test.db")
    } else {
        String::from_str("skopio_desktop.db")
    }
}

/// The database path for `app` under the user-given `dir`;
/// `dir_is_dir` tells whether `dir` names an existing directory.
pub fn resolve_db_path(dir: &str, app: &str, dir_is_dir: bool, debug_build: bool) -> (r: String)
    ensures
        r@ == resolved_db_path(dir@, app@, dir_is_dir, debug_build),
{
    if dir_is_dir {
        let name = db_filename(app, debug_build);
        join(dir, name.as_str())
    } else {
        String::from_str(dir)
    }
}

/// What to do about the CLI database path of one app.
pub struct DbPathChoice {
    /// The database path to use.
    pub path: String,
    /// Whether the configuration must now record `path` for the app.
    pub store: bool,
}

/// The database path of `app`, and whether it must be recorded: a given
/// directory (or file) wins and is recorded; otherwise the recorded path
/// is reused; otherwise the default file in `config_dir` is chosen and
/// recorded.
pub open spec fn chosen_db_path(
    db_dir: Option<Seq<char>>,
    dir_is_dir: bool,
    stored: Option<Seq<char>>,
    config_dir: Seq<char>,
    app: Seq<char>,
    debug_build: bool,
) -> (Seq<char>, bool) {
    match db_dir {
        Some(dir) => (resolved_db_path(dir, app, dir_is_dir, debug_build), true),
        None => match stored {
            Some(p) => (p, false),
            None => (join_of(config_dir, db_filename_of(app, debug_build)), true),
        },
    }
}

/// Chooses the database path of `app` (see [`chosen_db_path`]).
pub fn choose_db_path(
    db_dir: Option<String>,
    dir_is_dir: bool,
    stored: Option<String>,
    config_dir: &str,
    app: &str,
    debug_build: bool,
) -> (r: DbPathChoice)
    ensures
        (r.path@, r.store) == chosen_db_path(
            db_dir.deep_view(),
            dir_is_dir,
            stored.deep_view(),
            config_dir@,
            app@,
            debug_build,
        ),
{
    match db_dir {
        Some(dir) => DbPathChoice {
            path: resolve_db_path(dir.as_str(), app, dir_is_dir, debug_build),
            store: true,
        },
        None => match stored {
            Some(p) => DbPathChoice { path: p, store: false },
            None => {
                let name = db_filename(app, debug_build);
                DbPathChoice { path: join(config_dir, name.as_str()), store: true }
            },
        },
    }
}

/// A path once chosen and recorded is the one chosen again when no
/// directory is given: the configuration returns what it stored.
pub proof fn lemma_recorded_path_returned(
    db_dir: Option<Seq<char>>,
    dir_is_dir: bool,
    stored: Option<Seq<char>>,
    config_dir: Seq<char>,
    app: Seq<char>,
    debug_build: bool,
    later_dir_is_dir: bool,
)
    ensures
        ({
            let (p, record) = chosen_db_path(db_dir, dir_is_dir, stored, config_dir, app, debug_build);
            let recorded = if record { Some(p) } else { stored };
            chosen_db_path(None, later_dir_is_dir, recorded, config_dir, app, debug_build) == (p, false)
        }),
{
}

/// The project name of a project path: its file name, or empty.
pub open spec fn project_name_of(path: Seq<char>) -> Seq<char> {
    match file_name_of(path) {
        Some(n) => n,
        None => Seq::empty(),
    }
}

/// Extracts the project name from the project path.
pub fn extract_project_name(project_path: &str) -> (r: String)
    ensures
        r@ == project_name_of(project_path@),
{
    match file_name(project_path) {
        Some(n) => n,
        None => String::new(),
    }
}

/// The name of an Xcode project at `path`: the stem of its file name
/// (`App.xcodeproj` gives `App`).
pub fn derive_xcode_project_name(path: &str) -> (r: Option<String>)
    ensures
        r.deep_view() == file_stem_of(path@),
{
    match file_stem(path) {
        Some(s) => Some(s),
        None => None,
    }
}

} // verus!
