//! The applications the tracker recognises, the activity categories and
//! entity kinds it records, and how an application's activity is
//! classified.

use vstd::prelude::*;
use crate::text::{to_chars, chars_eq, contains_str, occurs_in, is_blank, is_blank_text, str_eq, to_lowercase, lowercase_of};
use crate::ax::AxSnapshot;
use crate::language::{detect_language, detected_language};

verus! {

/// A monitored application, identified by its bundle identifier.
#[derive(Debug, Clone, Copy, PartialEq, Eq, Hash, Structural)]
pub enum MonitoredApp {
    Brave,
    Chrome,
    ChromeBeta,
    ChromeCanary,
    Code,
    Figma,
    Firefox,
    Github,
    Postman,
    Safari,
    SafariPreview,
    Terminal,
    Iterm,
    Xcode,
    Notion,
    ArcBrowser,
    Dia,
    Warp,
    Zoom,
    Windsurf,
    Cursor,
    Unknown,
}

/// The kind of activity detected in an application.
#[derive(Debug, Clone, Copy, PartialEq, Eq, Hash, Structural)]
pub enum Category {
    Browsing,
    Coding,
    Compiling,
    Debugging,
    Designing,
    CodeReviewing,
    Meeting,
    Learning,
    Planning,
    WritingDocs,
    Other,
}

/// What a tracked activity is about: a file, an application or a URL.
#[derive(Debug, Clone, Copy, PartialEq, Eq, Hash, Structural)]
pub enum Entity {
    File,
    App,
    Url,
}

/// The bundle identifier of each `MonitoredApp`.
pub open spec fn bundle_id_of(x: MonitoredApp) -> Seq<char> {
    match x {
        MonitoredApp::Brave => "com.brave.Browser"@,
        MonitoredApp::Chrome => "com.google.Chrome"@,
        MonitoredApp::ChromeBeta => "com.google.Chrome.beta"@,
        MonitoredApp::ChromeCanary => "com.google.Chrome.canary"@,
        MonitoredApp::Code => "com.microsoft.VSCode"@,
        MonitoredApp::Figma => "com.figma.Desktop"@,
        MonitoredApp::Firefox => "org.mozilla.firefox"@,
        MonitoredApp::Github => "com.github.GithubClient"@,
        MonitoredApp::Postman => "com.postmanlabs.mac"@,
        MonitoredApp::Safari => "com.apple.Safari"@,
        MonitoredApp::SafariPreview => "com.apple.SafariTechnologyPreview"@,
        MonitoredApp::Terminal => "com.apple.Terminal"@,
        MonitoredApp::Iterm => "com.googlecode.iterm2"@,
        MonitoredApp::Xcode => "com.apple.dt.Xcode"@,
        MonitoredApp::Notion => "notion.id"@,
        MonitoredApp::ArcBrowser => "company.thebrowser.Browser"@,
        MonitoredApp::Dia => "company.thebrowser.dia"@,
        MonitoredApp::Warp => "dev.warp.Warp-Stable"@,
        MonitoredApp::Zoom => "us.zoom.xos"@,
        MonitoredApp::Windsurf => "com.exafunction.windsurf"@,
        MonitoredApp::Cursor => "com.todesktop.230313mzl4w4u92"@,
        MonitoredApp::Unknown => "unknown"@,
    }
}

/// The `MonitoredApp` whose bundle identifier is `s`, `Unknown` for any other text.
pub open spec fn app_for_bundle_id(s: Seq<char>) -> MonitoredApp {
    if s == "com.brave.Browser"@ { MonitoredApp::Brave } else
    if s == "com.google.Chrome"@ { MonitoredApp::Chrome } else
    if s == "com.google.Chrome.beta"@ { MonitoredApp::ChromeBeta } else
    if s == "com.google.Chrome.canary"@ { MonitoredApp::ChromeCanary } else
    if s == "com.microsoft.VSCode"@ { MonitoredApp::Code } else
    if s == "com.figma.Desktop"@ { MonitoredApp::Figma } else
    if s == "org.mozilla.firefox"@ { MonitoredApp::Firefox } else
    if s == "com.github.GithubClient"@ { MonitoredApp::Github } else
    if s == "com.postmanlabs.mac"@ { MonitoredApp::Postman } else
    if s == "com.apple.Safari"@ { MonitoredApp::Safari } else
    if s == "com.apple.SafariTechnologyPreview"@ { MonitoredApp::SafariPreview } else
    if s == "com.apple.Terminal"@ { MonitoredApp::Terminal } else
    if s == "com.googlecode.iterm2"@ { MonitoredApp::Iterm } else
    if s == "com.apple.dt.Xcode"@ { MonitoredApp::Xcode } else
    if s == "notion.id"@ { MonitoredApp::Notion } else
    if s == "company.thebrowser.Browser"@ { MonitoredApp::ArcBrowser } else
    if s == "company.thebrowser.dia"@ { MonitoredApp::Dia } else
    if s == "dev.warp.Warp-Stable"@ { MonitoredApp::Warp } else
    if s == "us.zoom.xos"@ { MonitoredApp::Zoom } else
    if s == "com.exafunction.windsurf"@ { MonitoredApp::Windsurf } else
    if s == "com.todesktop.230313mzl4w4u92"@ { MonitoredApp::Cursor } else
    { MonitoredApp::Unknown }
}

impl MonitoredApp {
    /// The bundle identifier of this value.
    pub fn bundle_id(&self) -> (r: &'static str)
        ensures
            r@ == bundle_id_of(*self),
    {
        match self {
            MonitoredApp::Brave => "com.brave.Browser",
            MonitoredApp::Chrome => "com.google.Chrome",
            MonitoredApp::ChromeBeta => "com.google.Chrome.beta",
            MonitoredApp::ChromeCanary => "com.google.Chrome.canary",
            MonitoredApp::Code => "com.microsoft.VSCode",
            MonitoredApp::Figma => "com.figma.Desktop",
            MonitoredApp::Firefox => "org.mozilla.firefox",
            MonitoredApp::Github => "com.github.GithubClient",
            MonitoredApp::Postman => "com.postmanlabs.mac",
            MonitoredApp::Safari => "com.apple.Safari",
            MonitoredApp::SafariPreview => "com.apple.SafariTechnologyPreview",
            MonitoredApp::Terminal => "com.apple.Terminal",
            MonitoredApp::Iterm => "com.googlecode.iterm2",
            MonitoredApp::Xcode => "com.apple.dt.Xcode",
            MonitoredApp::Notion => "notion.id",
            MonitoredApp::ArcBrowser => "company.thebrowser.Browser",
            MonitoredApp::Dia => "company.thebrowser.dia",
            MonitoredApp::Warp => "dev.warp.Warp-Stable",
            MonitoredApp::Zoom => "us.zoom.xos",
            MonitoredApp::Windsurf => "com.exafunction.windsurf",
            MonitoredApp::Cursor => "com.todesktop.230313mzl4w4u92",
            MonitoredApp::Unknown => "unknown",
        }
    }

    /// The application whose bundle identifier is `s`; `Unknown` for any
    /// identifier that is not monitored.
    pub fn from_bundle_id(s: &str) -> (r: MonitoredApp)
        ensures
            r == app_for_bundle_id(s@),
    {
        let v = to_chars(s);
        if chars_eq(&v, &to_chars("com.brave.Browser")) {
            return MonitoredApp::Brave;
        }
        if chars_eq(&v, &to_chars("com.google.Chrome")) {
            return MonitoredApp::Chrome;
        }
        if chars_eq(&v, &to_chars("com.google.Chrome.beta")) {
            return MonitoredApp::ChromeBeta;
        }
        if chars_eq(&v, &to_chars("com.google.Chrome.canary")) {
            return MonitoredApp::ChromeCanary;
        }
        if chars_eq(&v, &to_chars("com.microsoft.VSCode")) {
            return MonitoredApp::Code;
        }
        if chars_eq(&v, &to_chars("com.figma.Desktop")) {
            return MonitoredApp::Figma;
        }
        if chars_eq(&v, &to_chars("org.mozilla.firefox")) {
            return MonitoredApp::Firefox;
        }
        if chars_eq(&v, &to_chars("com.github.GithubClient")) {
            return MonitoredApp::Github;
        }
        if chars_eq(&v, &to_chars("com.postmanlabs.mac")) {
            return MonitoredApp::Postman;
        }
        if chars_eq(&v, &to_chars("com.apple.Safari")) {
            return MonitoredApp::Safari;
        }
        if chars_eq(&v, &to_chars("com.apple.SafariTechnologyPreview")) {
            return MonitoredApp::SafariPreview;
        }
        if chars_eq(&v, &to_chars("com.apple.Terminal")) {
            return MonitoredApp::Terminal;
        }
        if chars_eq(&v, &to_chars("com.googlecode.iterm2")) {
            return MonitoredApp::Iterm;
        }
        if chars_eq(&v, &to_chars("com.apple.dt.Xcode")) {
            return MonitoredApp::Xcode;
        }
        if chars_eq(&v, &to_chars("notion.id")) {
            return MonitoredApp::Notion;
        }
        if chars_eq(&v, &to_chars("company.thebrowser.Browser")) {
            return MonitoredApp::ArcBrowser;
        }
        if chars_eq(&v, &to_chars("company.thebrowser.dia")) {
            return MonitoredApp::Dia;
        }
        if chars_eq(&v, &to_chars("dev.warp.Warp-Stable")) {
            return MonitoredApp::Warp;
        }
        if chars_eq(&v, &to_chars("us.zoom.xos")) {
            return MonitoredApp::Zoom;
        }
        if chars_eq(&v, &to_chars("com.exafunction.windsurf")) {
            return MonitoredApp::Windsurf;
        }
        if chars_eq(&v, &to_chars("com.todesktop.230313mzl4w4u92")) {
            return MonitoredApp::Cursor;
        }
        MonitoredApp::Unknown
    }
}

/// Reading back the bundle identifier of any `MonitoredApp` gives that value again.
pub proof fn lemma_bundle_id_round_trip(x: MonitoredApp)
    ensures
        app_for_bundle_id(bundle_id_of(x)) == x,
{
    match x {
        MonitoredApp::Brave => {
            reveal_strlit("com.brave.Browser");
        },
        MonitoredApp::Chrome => {
            reveal_strlit("com.google.Chrome");
            reveal_strlit("com.brave.Browser");
            assert("com.google.Chrome"@[4] != "com.brave.Browser"@[4]);
        },
        MonitoredApp::ChromeBeta => {
            reveal_strlit("com.google.Chrome.beta");
            reveal_strlit("com.brave.Browser");
            assert("com.google.Chrome.beta"@.len() != "com.brave.Browser"@.len());
            reveal_strlit("com.google.Chrome");
            assert("com.google.Chrome.beta"@.len() != "com.google.Chrome"@.len());
        },
        MonitoredApp::ChromeCanary => {
            reveal_strlit("com.google.Chrome.canary");
            reveal_strlit("com.brave.Browser");
            assert("com.google.Chrome.canary"@.len() != "com.brave.Browser"@.len());
            reveal_strlit("com.google.Chrome");
            assert("com.google.Chrome.canary"@.len() != "com.google.Chrome"@.len());
            reveal_strlit("com.google.Chrome.beta");
            assert("com.google.Chrome.canary"@.len() != "com.google.Chrome.beta"@.len());
        },
        MonitoredApp::Code => {
            reveal_strlit("com.microsoft.VSCode");
            reveal_strlit("com.brave.Browser");
            assert("com.microsoft.VSCode"@.len() != "com.brave.Browser"@.len());
            reveal_strlit("com.google.Chrome");
            assert("com.microsoft.VSCode"@.len() != "com.google.Chrome"@.len());
            reveal_strlit("com.google.Chrome.beta");
            assert("com.microsoft.VSCode"@.len() != "com.google.Chrome.beta"@.len());
            reveal_strlit("com.google.Chrome.canary");
            assert("com.microsoft.VSCode"@.len() != "com.google.Chrome.canary"@.len());
        },
        MonitoredApp::Figma => {
            reveal_strlit("com.figma.Desktop");
            reveal_strlit("com.brave.Browser");
            assert("com.figma.Desktop"@[4] != "com.brave.Browser"@[4]);
            reveal_strlit("com.google.Chrome");
            assert("com.figma.Desktop"@[4] != "com.google.Chrome"@[4]);
            reveal_strlit("com.google.Chrome.beta");
            assert("com.figma.Desktop"@.len() != "com.google.Chrome.beta"@.len());
            reveal_strlit("com.google.Chrome.canary");
            assert("com.figma.Desktop"@.len() != "com.google.Chrome.canary"@.len());
            reveal_strlit("com.microsoft.VSCode");
            assert("com.figma.Desktop"@.len() != "com.microsoft.VSCode"@.len());
        },
        MonitoredApp::Firefox => {
            reveal_strlit("org.mozilla.firefox");
            reveal_strlit("com.brave.Browser");
            assert("org.mozilla.firefox"@.len() != "com.brave.Browser"@.len());
            reveal_strlit("com.google.Chrome");
            assert("org.mozilla.firefox"@.len() != "com.google.Chrome"@.len());
            reveal_strlit("com.google.Chrome.beta");
            assert("org.mozilla.firefox"@.len() != "com.google.Chrome.beta"@.len());
            reveal_strlit("com.google.Chrome.canary");
            assert("org.mozilla.firefox"@.len() != "com.google.Chrome.canary"@.len());
            reveal_strlit("com.microsoft.VSCode");
            assert("org.mozilla.firefox"@.len() != "com.microsoft.VSCode"@.len());
            reveal_strlit("com.figma.Desktop");
            assert("org.mozilla.firefox"@.len() != "com.figma.Desktop"@.len());
        },
        MonitoredApp::Github => {
            reveal_strlit("com.github.GithubClient");
            reveal_strlit("com.brave.Browser");
            assert("com.github.GithubClient"@.len() != "com.brave.Browser"@.len());
            reveal_strlit("com.google.Chrome");
            assert("com.github.GithubClient"@.len() != "com.google.Chrome"@.len());
            reveal_strlit("com.google.Chrome.beta");
            assert("com.github.GithubClient"@.len() != "com.google.Chrome.beta"@.len());
            reveal_strlit("com.google.Chrome.canary");
            assert("com.github.GithubClient"@.len() != "com.google.Chrome.canary"@.len());
            reveal_strlit("com.microsoft.VSCode");
            assert("com.github.GithubClient"@.len() != "com.microsoft.VSCode"@.len());
            reveal_strlit("com.figma.Desktop");
            assert("com.github.GithubClient"@.len() != "com.figma.Desktop"@.len());
            reveal_strlit("org.mozilla.firefox");
            assert("com.github.GithubClient"@.len() != "org.mozilla.firefox"@.len());
        },
        MonitoredApp::Postman => {
            reveal_strlit("com.postmanlabs.mac");
            reveal_strlit("com.brave.Browser");
            assert("com.postmanlabs.mac"@.len() != "com.brave.Browser"@.len());
            reveal_strlit("com.google.Chrome");
            assert("com.postmanlabs.mac"@.len() != "com.google.Chrome"@.len());
            reveal_strlit("com.google.Chrome.beta");
            assert("com.postmanlabs.mac"@.len() != "com.google.Chrome.beta"@.len());
            reveal_strlit("com.google.Chrome.canary");
            assert("com.postmanlabs.mac"@.len() != "com.google.Chrome.canary"@.len());
            reveal_strlit("com.microsoft.VSCode");
            assert("com.postmanlabs.mac"@.len() != "com.microsoft.VSCode"@.len());
            reveal_strlit("com.figma.Desktop");
            assert("com.postmanlabs.mac"@.len() != "com.figma.Desktop"@.len());
            reveal_strlit("org.mozilla.firefox");
            assert("com.postmanlabs.mac"@[0] != "org.mozilla.firefox"@[0]);
            reveal_strlit("com.github.GithubClient");
            assert("com.postmanlabs.mac"@.len() != "com.github.GithubClient"@.len());
        },
        MonitoredApp::Safari => {
            reveal_strlit("com.apple.Safari");
            reveal_strlit("com.brave.Browser");
            assert("com.apple.Safari"@.len() != "com.brave.Browser"@.len());
            reveal_strlit("com.google.Chrome");
            assert("com.apple.Safari"@.len() != "com.google.Chrome"@.len());
            reveal_strlit("com.google.Chrome.beta");
            assert("com.apple.Safari"@.len() != "com.google.Chrome.beta"@.len());
            reveal_strlit("com.google.Chrome.canary");
            assert("com.apple.Safari"@.len() != "com.google.Chrome.canary"@.len());
            reveal_strlit("com.microsoft.VSCode");
            assert("com.apple.Safari"@.len() != "com.microsoft.VSCode"@.len());
            reveal_strlit("com.figma.Desktop");
            assert("com.apple.Safari"@.len() != "com.figma.Desktop"@.len());
            reveal_strlit("org.mozilla.firefox");
            assert("com.apple.Safari"@.len() != "org.mozilla.firefox"@.len());
            reveal_strlit("com.github.GithubClient");
            assert("com.apple.Safari"@.len() != "com.github.GithubClient"@.len());
            reveal_strlit("com.postmanlabs.mac");
            assert("com.apple.Safari"@.len() != "com.postmanlabs.mac"@.len());
        },
        MonitoredApp::SafariPreview => {
            reveal_strlit("com.apple.SafariTechnologyPreview");
            reveal_strlit("com.brave.Browser");
            assert("com.apple.SafariTechnologyPreview"@.len() != "com.brave.Browser"@.len());
            reveal_strlit("com.google.Chrome");
            assert("com.apple.SafariTechnologyPreview"@.len() != "com.google.Chrome"@.len());
            reveal_strlit("com.google.Chrome.beta");
            assert("com.apple.SafariTechnologyPreview"@.len() != "com.google.Chrome.beta"@.len());
            reveal_strlit("com.google.Chrome.canary");
            assert("com.apple.SafariTechnologyPreview"@.len() != "com.google.Chrome.canary"@.len());
            reveal_strlit("com.microsoft.VSCode");
            assert("com.apple.SafariTechnologyPreview"@.len() != "com.microsoft.VSCode"@.len());
            reveal_strlit("com.figma.Desktop");
            assert("com.apple.SafariTechnologyPreview"@.len() != "com.figma.Desktop"@.len());
            reveal_strlit("org.mozilla.firefox");
            assert("com.apple.SafariTechnologyPreview"@.len() != "org.mozilla.firefox"@.len());
            reveal_strlit("com.github.GithubClient");
            assert("com.apple.SafariTechnologyPreview"@.len() != "com.github.GithubClient"@.len());
            reveal_strlit("com.postmanlabs.mac");
            assert("com.apple.SafariTechnologyPreview"@.len() != "com.postmanlabs.mac"@.len());
            reveal_strlit("com.apple.Safari");
            assert("com.apple.SafariTechnologyPreview"@.len() != "com.apple.Safari"@.len());
        },
        MonitoredApp::Terminal => {
            reveal_strlit("com.apple.Terminal");
            reveal_strlit("com.brave.Browser");
            assert("com.apple.Terminal"@.len() != "com.brave.Browser"@.len());
            reveal_strlit("com.google.Chrome");
            assert("com.apple.Terminal"@.len() != "com.google.Chrome"@.len());
            reveal_strlit("com.google.Chrome.beta");
            assert("com.apple.Terminal"@.len() != "com.google.Chrome.beta"@.len());
            reveal_strlit("com.google.Chrome.canary");
            assert("com.apple.Terminal"@.len() != "com.google.Chrome.canary"@.len());
            reveal_strlit("com.microsoft.VSCode");
            assert("com.apple.Terminal"@.len() != "com.microsoft.VSCode"@.len());
            reveal_strlit("com.figma.Desktop");
            assert("com.apple.Terminal"@.len() != "com.figma.Desktop"@.len());
            reveal_strlit("org.mozilla.firefox");
            assert("com.apple.Terminal"@.len() != "org.mozilla.firefox"@.len());
            reveal_strlit("com.github.GithubClient");
            assert("com.apple.Terminal"@.len() != "com.github.GithubClient"@.len());
            reveal_strlit("com.postmanlabs.mac");
            assert("com.apple.Terminal"@.len() != "com.postmanlabs.mac"@.len());
            reveal_strlit("com.apple.Safari");
            assert("com.apple.Terminal"@.len() != "com.apple.Safari"@.len());
            reveal_strlit("com.apple.SafariTechnologyPreview");
            assert("com.apple.Terminal"@.len() != "com.apple.SafariTechnologyPreview"@.len());
        },
        MonitoredApp::Iterm => {
            reveal_strlit("com.googlecode.iterm2");
            reveal_strlit("com.brave.Browser");
            assert("com.googlecode.iterm2"@.len() != "com.brave.Browser"@.len());
            reveal_strlit("com.google.Chrome");
            assert("com.googlecode.iterm2"@.len() != "com.google.Chrome"@.len());
            reveal_strlit("com.google.Chrome.beta");
            assert("com.googlecode.iterm2"@.len() != "com.google.Chrome.beta"@.len());
            reveal_strlit("com.google.Chrome.canary");
            assert("com.googlecode.iterm2"@.len() != "com.google.Chrome.canary"@.len());
            reveal_strlit("com.microsoft.VSCode");
            assert("com.googlecode.iterm2"@.len() != "com.microsoft.VSCode"@.len());
            reveal_strlit("com.figma.Desktop");
            assert("com.googlecode.iterm2"@.len() != "com.figma.Desktop"@.len());
            reveal_strlit("org.mozilla.firefox");
            assert("com.googlecode.iterm2"@.len() != "org.mozilla.firefox"@.len());
            reveal_strlit("com.github.GithubClient");
            assert("com.googlecode.iterm2"@.len() != "com.github.GithubClient"@.len());
            reveal_strlit("com.postmanlabs.mac");
            assert("com.googlecode.iterm2"@.len() != "com.postmanlabs.mac"@.len());
            reveal_strlit("com.apple.Safari");
            assert("com.googlecode.iterm2"@.len() != "com.apple.Safari"@.len());
            reveal_strlit("com.apple.SafariTechnologyPreview");
            assert("com.googlecode.iterm2"@.len() != "com.apple.SafariTechnologyPreview"@.len());
            reveal_strlit("com.apple.Terminal");
            assert("com.googlecode.iterm2"@.len() != "com.apple.Terminal"@.len());
        },
        MonitoredApp::Xcode => {
            reveal_strlit("com.apple.dt.Xcode");
            reveal_strlit("com.brave.Browser");
            assert("com.apple.dt.Xcode"@.len() != "com.brave.Browser"@.len());
            reveal_strlit("com.google.Chrome");
            assert("com.apple.dt.Xcode"@.len() != "com.google.Chrome"@.len());
            reveal_strlit("com.google.Chrome.beta");
            assert("com.apple.dt.Xcode"@.len() != "com.google.Chrome.beta"@.len());
            reveal_strlit("com.google.Chrome.canary");
            assert("com.apple.dt.Xcode"@.len() != "com.google.Chrome.canary"@.len());
            reveal_strlit("com.microsoft.VSCode");
            assert("com.apple.dt.Xcode"@.len() != "com.microsoft.VSCode"@.len());
            reveal_strlit("com.figma.Desktop");
            assert("com.apple.dt.Xcode"@.len() != "com.figma.Desktop"@.len());
            reveal_strlit("org.mozilla.firefox");
            assert("com.apple.dt.Xcode"@.len() != "org.mozilla.firefox"@.len());
            reveal_strlit("com.github.GithubClient");
            assert("com.apple.dt.Xcode"@.len() != "com.github.GithubClient"@.len());
            reveal_strlit("com.postmanlabs.mac");
            assert("com.apple.dt.Xcode"@.len() != "com.postmanlabs.mac"@.len());
            reveal_strlit("com.apple.Safari");
            assert("com.apple.dt.Xcode"@.len() != "com.apple.Safari"@.len());
            reveal_strlit("com.apple.SafariTechnologyPreview");
            assert("com.apple.dt.Xcode"@.len() != "com.apple.SafariTechnologyPreview"@.len());
            reveal_strlit("com.apple.Terminal");
            assert("com.apple.dt.Xcode"@[10] != "com.apple.Terminal"@[10]);
            reveal_strlit("com.googlecode.iterm2");
            assert("com.apple.dt.Xcode"@.len() != "com.googlecode.iterm2"@.len());
        },
        MonitoredApp::Notion => {
            reveal_strlit("notion.id");
            reveal_strlit("com.brave.Browser");
            assert("notion.id"@.len() != "com.brave.Browser"@.len());
            reveal_strlit("com.google.Chrome");
            assert("notion.id"@.len() != "com.google.Chrome"@.len());
            reveal_strlit("com.google.Chrome.beta");
            assert("notion.id"@.len() != "com.google.Chrome.beta"@.len());
            reveal_strlit("com.google.Chrome.canary");
            assert("notion.id"@.len() != "com.google.Chrome.canary"@.len());
            reveal_strlit("com.microsoft.VSCode");
            assert("notion.id"@.len() != "com.microsoft.VSCode"@.len());
            reveal_strlit("com.figma.Desktop");
            assert("notion.id"@.len() != "com.figma.Desktop"@.len());
            reveal_strlit("org.mozilla.firefox");
            assert("notion.id"@.len() != "org.mozilla.firefox"@.len());
            reveal_strlit("com.github.GithubClient");
            assert("notion.id"@.len() != "com.github.GithubClient"@.len());
            reveal_strlit("com.postmanlabs.mac");
            assert("notion.id"@.len() != "com.postmanlabs.mac"@.len());
            reveal_strlit("com.apple.Safari");
            assert("notion.id"@.len() != "com.apple.Safari"@.len());
            reveal_strlit("com.apple.SafariTechnologyPreview");
            assert("notion.id"@.len() != "com.apple.SafariTechnologyPreview"@.len());
            reveal_strlit("com.apple.Terminal");
            assert("notion.id"@.len() != "com.apple.Terminal"@.len());
            reveal_strlit("com.googlecode.iterm2");
            assert("notion.id"@.len() != "com.googlecode.iterm2"@.len());
            reveal_strlit("com.apple.dt.Xcode");
            assert("notion.id"@.len() != "com.apple.dt.Xcode"@.len());
        },
        MonitoredApp::ArcBrowser => {
            reveal_strlit("company.thebrowser.Browser");
            reveal_strlit("com.brave.Browser");
            assert("company.thebrowser.Browser"@.len() != "com.brave.Browser"@.len());
            reveal_strlit("com.google.Chrome");
            assert("company.thebrowser.Browser"@.len() != "com.google.Chrome"@.len());
            reveal_strlit("com.google.Chrome.beta");
            assert("company.thebrowser.Browser"@.len() != "com.google.Chrome.beta"@.len());
            reveal_strlit("com.google.Chrome.canary");
            assert("company.thebrowser.Browser"@.len() != "com.google.Chrome.canary"@.len());
            reveal_strlit("com.microsoft.VSCode");
            assert("company.thebrowser.Browser"@.len() != "com.microsoft.VSCode"@.len());
            reveal_strlit("com.figma.Desktop");
            assert("company.thebrowser.Browser"@.len() != "com.figma.Desktop"@.len());
            reveal_strlit("org.mozilla.firefox");
            assert("company.thebrowser.Browser"@.len() != "org.mozilla.firefox"@.len());
            reveal_strlit("com.github.GithubClient");
            assert("company.thebrowser.Browser"@.len() != "com.github.GithubClient"@.len());
            reveal_strlit("com.postmanlabs.mac");
            assert("company.thebrowser.Browser"@.len() != "com.postmanlabs.mac"@.len());
            reveal_strlit("com.apple.Safari");
            assert("company.thebrowser.Browser"@.len() != "com.apple.Safari"@.len());
            reveal_strlit("com.apple.SafariTechnologyPreview");
            assert("company.thebrowser.Browser"@.len() != "com.apple.SafariTechnologyPreview"@.len());
            reveal_strlit("com.apple.Terminal");
            assert("company.thebrowser.Browser"@.len() != "com.apple.Terminal"@.len());
            reveal_strlit("com.googlecode.iterm2");
            assert("company.thebrowser.Browser"@.len() != "com.googlecode.iterm2"@.len());
            reveal_strlit("com.apple.dt.Xcode");
            assert("company.thebrowser.Browser"@.len() != "com.apple.dt.Xcode"@.len());
            reveal_strlit("notion.id");
            assert("company.thebrowser.Browser"@.len() != "notion.id"@.len());
        },
        MonitoredApp::Dia => {
            reveal_strlit("company.thebrowser.dia");
            reveal_strlit("com.brave.Browser");
            assert("company.thebrowser.dia"@.len() != "com.brave.Browser"@.len());
            reveal_strlit("com.google.Chrome");
            assert("company.thebrowser.dia"@.len() != "com.google.Chrome"@.len());
            reveal_strlit("com.google.Chrome.beta");
            assert("company.thebrowser.dia"@[3] != "com.google.Chrome.beta"@[3]);
            reveal_strlit("com.google.Chrome.canary");
            assert("company.thebrowser.dia"@.len() != "com.google.Chrome.canary"@.len());
            reveal_strlit("com.microsoft.VSCode");
            assert("company.thebrowser.dia"@.len() != "com.microsoft.VSCode"@.len());
            reveal_strlit("com.figma.Desktop");
            assert("company.thebrowser.dia"@.len() != "com.figma.Desktop"@.len());
            reveal_strlit("org.mozilla.firefox");
            assert("company.thebrowser.dia"@.len() != "org.mozilla.firefox"@.len());
            reveal_strlit("com.github.GithubClient");
            assert("company.thebrowser.dia"@.len() != "com.github.GithubClient"@.len());
            reveal_strlit("com.postmanlabs.mac");
            assert("company.thebrowser.dia"@.len() != "com.postmanlabs.mac"@.len());
            reveal_strlit("com.apple.Safari");
            assert("company.thebrowser.dia"@.len() != "com.apple.Safari"@.len());
            reveal_strlit("com.apple.SafariTechnologyPreview");
            assert("company.thebrowser.dia"@.len() != "com.apple.SafariTechnologyPreview"@.len());
            reveal_strlit("com.apple.Terminal");
            assert("company.thebrowser.dia"@.len() != "com.apple.Terminal"@.len());
            reveal_strlit("com.googlecode.iterm2");
            assert("company.thebrowser.dia"@.len() != "com.googlecode.iterm2"@.len());
            reveal_strlit("com.apple.dt.Xcode");
            assert("company.thebrowser.dia"@.len() != "com.apple.dt.Xcode"@.len());
            reveal_strlit("notion.id");
            assert("company.thebrowser.dia"@.len() != "notion.id"@.len());
            reveal_strlit("company.thebrowser.Browser");
            assert("company.thebrowser.dia"@.len() != "company.thebrowser.Browser"@.len());
        },
        MonitoredApp::Warp => {
            reveal_strlit("dev.warp.Warp-Stable");
            reveal_strlit("com.brave.Browser");
            assert("dev.warp.Warp-Stable"@.len() != "com.brave.Browser"@.len());
            reveal_strlit("com.google.Chrome");
            assert("dev.warp.Warp-Stable"@.len() != "com.google.Chrome"@.len());
            reveal_strlit("com.google.Chrome.beta");
            assert("dev.warp.Warp-Stable"@.len() != "com.google.Chrome.beta"@.len());
            reveal_strlit("com.google.Chrome.canary");
            assert("dev.warp.Warp-Stable"@.len() != "com.google.Chrome.canary"@.len());
            reveal_strlit("com.microsoft.VSCode");
            assert("dev.warp.Warp-Stable"@[0] != "com.microsoft.VSCode"@[0]);
            reveal_strlit("com.figma.Desktop");
            assert("dev.warp.Warp-Stable"@.len() != "com.figma.Desktop"@.len());
            reveal_strlit("org.mozilla.firefox");
            assert("dev.warp.Warp-Stable"@.len() != "org.mozilla.firefox"@.len());
            reveal_strlit("com.github.GithubClient");
            assert("dev.warp.Warp-Stable"@.len() != "com.github.GithubClient"@.len());
            reveal_strlit("com.postmanlabs.mac");
            assert("dev.warp.Warp-Stable"@.len() != "com.postmanlabs.mac"@.len());
            reveal_strlit("com.apple.Safari");
            assert("dev.warp.Warp-Stable"@.len() != "com.apple.Safari"@.len());
            reveal_strlit("com.apple.SafariTechnologyPreview");
            assert("dev.warp.Warp-Stable"@.len() != "com.apple.SafariTechnologyPreview"@.len());
            reveal_strlit("com.apple.Terminal");
            assert("dev.warp.Warp-Stable"@.len() != "com.apple.Terminal"@.len());
            reveal_strlit("com.googlecode.iterm2");
            assert("dev.warp.Warp-Stable"@.len() != "com.googlecode.iterm2"@.len());
            reveal_strlit("com.apple.dt.Xcode");
            assert("dev.warp.Warp-Stable"@.len() != "com.apple.dt.Xcode"@.len());
            reveal_strlit("notion.id");
            assert("dev.warp.Warp-Stable"@.len() != "notion.id"@.len());
            reveal_strlit("company.thebrowser.Browser");
            assert("dev.warp.Warp-Stable"@.len() != "company.thebrowser.Browser"@.len());
            reveal_strlit("company.thebrowser.dia");
            assert("dev.warp.Warp-Stable"@.len() != "company.thebrowser.dia"@.len());
        },
        MonitoredApp::Zoom => {
            reveal_strlit("us.zoom.xos");
            reveal_strlit("com.brave.Browser");
            assert("us.zoom.xos"@.len() != "com.brave.Browser"@.len());
            reveal_strlit("com.google.Chrome");
            assert("us.zoom.xos"@.len() != "com.google.Chrome"@.len());
            reveal_strlit("com.google.Chrome.beta");
            assert("us.zoom.xos"@.len() != "com.google.Chrome.beta"@.len());
            reveal_strlit("com.google.Chrome.canary");
            assert("us.zoom.xos"@.len() != "com.google.Chrome.canary"@.len());
            reveal_strlit("com.microsoft.VSCode");
            assert("us.zoom.xos"@.len() != "com.microsoft.VSCode"@.len());
            reveal_strlit("com.figma.Desktop");
            assert("us.zoom.xos"@.len() != "com.figma.Desktop"@.len());
            reveal_strlit("org.mozilla.firefox");
            assert("us.zoom.xos"@.len() != "org.mozilla.firefox"@.len());
            reveal_strlit("com.github.GithubClient");
            assert("us.zoom.xos"@.len() != "com.github.GithubClient"@.len());
            reveal_strlit("com.postmanlabs.mac");
            assert("us.zoom.xos"@.len() != "com.postmanlabs.mac"@.len());
            reveal_strlit("com.apple.Safari");
            assert("us.zoom.xos"@.len() != "com.apple.Safari"@.len());
            reveal_strlit("com.apple.SafariTechnologyPreview");
            assert("us.zoom.xos"@.len() != "com.apple.SafariTechnologyPreview"@.len());
            reveal_strlit("com.apple.Terminal");
            assert("us.zoom.xos"@.len() != "com.apple.Terminal"@.len());
            reveal_strlit("com.googlecode.iterm2");
            assert("us.zoom.xos"@.len() != "com.googlecode.iterm2"@.len());
            reveal_strlit("com.apple.dt.Xcode");
            assert("us.zoom.xos"@.len() != "com.apple.dt.Xcode"@.len());
            reveal_strlit("notion.id");
            assert("us.zoom.xos"@.len() != "notion.id"@.len());
            reveal_strlit("company.thebrowser.Browser");
            assert("us.zoom.xos"@.len() != "company.thebrowser.Browser"@.len());
            reveal_strlit("company.thebrowser.dia");
            assert("us.zoom.xos"@.len() != "company.thebrowser.dia"@.len());
            reveal_strlit("dev.warp.Warp-Stable");
            assert("us.zoom.xos"@.len() != "dev.warp.Warp-Stable"@.len());
        },
        MonitoredApp::Windsurf => {
            reveal_strlit("com.exafunction.windsurf");
            reveal_strlit("com.brave.Browser");
            assert("com.exafunction.windsurf"@.len() != "com.brave.Browser"@.len());
            reveal_strlit("com.google.Chrome");
            assert("com.exafunction.windsurf"@.len() != "com.google.Chrome"@.len());
            reveal_strlit("com.google.Chrome.beta");
            assert("com.exafunction.windsurf"@.len() != "com.google.Chrome.beta"@.len());
            reveal_strlit("com.google.Chrome.canary");
            assert("com.exafunction.windsurf"@[4] != "com.google.Chrome.canary"@[4]);
            reveal_strlit("com.microsoft.VSCode");
            assert("com.exafunction.windsurf"@.len() != "com.microsoft.VSCode"@.len());
            reveal_strlit("com.figma.Desktop");
            assert("com.exafunction.windsurf"@.len() != "com.figma.Desktop"@.len());
            reveal_strlit("org.mozilla.firefox");
            assert("com.exafunction.windsurf"@.len() != "org.mozilla.firefox"@.len());
            reveal_strlit("com.github.GithubClient");
            assert("com.exafunction.windsurf"@.len() != "com.github.GithubClient"@.len());
            reveal_strlit("com.postmanlabs.mac");
            assert("com.exafunction.windsurf"@.len() != "com.postmanlabs.mac"@.len());
            reveal_strlit("com.apple.Safari");
            assert("com.exafunction.windsurf"@.len() != "com.apple.Safari"@.len());
            reveal_strlit("com.apple.SafariTechnologyPreview");
            assert("com.exafunction.windsurf"@.len() != "com.apple.SafariTechnologyPreview"@.len());
            reveal_strlit("com.apple.Terminal");
            assert("com.exafunction.windsurf"@.len() != "com.apple.Terminal"@.len());
            reveal_strlit("com.googlecode.iterm2");
            assert("com.exafunction.windsurf"@.len() != "com.googlecode.iterm2"@.len());
            reveal_strlit("com.apple.dt.Xcode");
            assert("com.exafunction.windsurf"@.len() != "com.apple.dt.Xcode"@.len());
            reveal_strlit("notion.id");
            assert("com.exafunction.windsurf"@.len() != "notion.id"@.len());
            reveal_strlit("company.thebrowser.Browser");
            assert("com.exafunction.windsurf"@.len() != "company.thebrowser.Browser"@.len());
            reveal_strlit("company.thebrowser.dia");
            assert("com.exafunction.windsurf"@.len() != "company.thebrowser.dia"@.len());
            reveal_strlit("dev.warp.Warp-Stable");
            assert("com.exafunction.windsurf"@.len() != "dev.warp.Warp-Stable"@.len());
            reveal_strlit("us.zoom.xos");
            assert("com.exafunction.windsurf"@.len() != "us.zoom.xos"@.len());
        },
        MonitoredApp::Cursor => {
            reveal_strlit("com.todesktop.230313mzl4w4u92");
            reveal_strlit("com.brave.Browser");
            assert("com.todesktop.230313mzl4w4u92"@.len() != "com.brave.Browser"@.len());
            reveal_strlit("com.google.Chrome");
            assert("com.todesktop.230313mzl4w4u92"@.len() != "com.google.Chrome"@.len());
            reveal_strlit("com.google.Chrome.beta");
            assert("com.todesktop.230313mzl4w4u92"@.len() != "com.google.Chrome.beta"@.len());
            reveal_strlit("com.google.Chrome.canary");
            assert("com.todesktop.230313mzl4w4u92"@.len() != "com.google.Chrome.canary"@.len());
            reveal_strlit("com.microsoft.VSCode");
            assert("com.todesktop.230313mzl4w4u92"@.len() != "com.microsoft.VSCode"@.len());
            reveal_strlit("com.figma.Desktop");
            assert("com.todesktop.230313mzl4w4u92"@.len() != "com.figma.Desktop"@.len());
            reveal_strlit("org.mozilla.firefox");
            assert("com.todesktop.230313mzl4w4u92"@.len() != "org.mozilla.firefox"@.len());
            reveal_strlit("com.github.GithubClient");
            assert("com.todesktop.230313mzl4w4u92"@.len() != "com.github.GithubClient"@.len());
            reveal_strlit("com.postmanlabs.mac");
            assert("com.todesktop.230313mzl4w4u92"@.len() != "com.postmanlabs.mac"@.len());
            reveal_strlit("com.apple.Safari");
            assert("com.todesktop.230313mzl4w4u92"@.len() != "com.apple.Safari"@.len());
            reveal_strlit("com.apple.SafariTechnologyPreview");
            assert("com.todesktop.230313mzl4w4u92"@.len() != "com.apple.SafariTechnologyPreview"@.len());
            reveal_strlit("com.apple.Terminal");
            assert("com.todesktop.230313mzl4w4u92"@.len() != "com.apple.Terminal"@.len());
            reveal_strlit("com.googlecode.iterm2");
            assert("com.todesktop.230313mzl4w4u92"@.len() != "com.googlecode.iterm2"@.len());
            reveal_strlit("com.apple.dt.Xcode");
            assert("com.todesktop.230313mzl4w4u92"@.len() != "com.apple.dt.Xcode"@.len());
            reveal_strlit("notion.id");
            assert("com.todesktop.230313mzl4w4u92"@.len() != "notion.id"@.len());
            reveal_strlit("company.thebrowser.Browser");
            assert("com.todesktop.230313mzl4w4u92"@.len() != "company.thebrowser.Browser"@.len());
            reveal_strlit("company.thebrowser.dia");
            assert("com.todesktop.230313mzl4w4u92"@.len() != "company.thebrowser.dia"@.len());
            reveal_strlit("dev.warp.Warp-Stable");
            assert("com.todesktop.230313mzl4w4u92"@.len() != "dev.warp.Warp-Stable"@.len());
            reveal_strlit("us.zoom.xos");
            assert("com.todesktop.230313mzl4w4u92"@.len() != "us.zoom.xos"@.len());
            reveal_strlit("com.exafunction.windsurf");
            assert("com.todesktop.230313mzl4w4u92"@.len() != "com.exafunction.windsurf"@.len());
        },
        MonitoredApp::Unknown => {
            reveal_strlit("unknown");
            reveal_strlit("com.brave.Browser");
            assert("unknown"@.len() != "com.brave.Browser"@.len());
            reveal_strlit("com.google.Chrome");
            assert("unknown"@.len() != "com.google.Chrome"@.len());
            reveal_strlit("com.google.Chrome.beta");
            assert("unknown"@.len() != "com.google.Chrome.beta"@.len());
            reveal_strlit("com.google.Chrome.canary");
            assert("unknown"@.len() != "com.google.Chrome.canary"@.len());
            reveal_strlit("com.microsoft.VSCode");
            assert("unknown"@.len() != "com.microsoft.VSCode"@.len());
            reveal_strlit("com.figma.Desktop");
            assert("unknown"@.len() != "com.figma.Desktop"@.len());
            reveal_strlit("org.mozilla.firefox");
            assert("unknown"@.len() != "org.mozilla.firefox"@.len());
            reveal_strlit("com.github.GithubClient");
            assert("unknown"@.len() != "com.github.GithubClient"@.len());
            reveal_strlit("com.postmanlabs.mac");
            assert("unknown"@.len() != "com.postmanlabs.mac"@.len());
            reveal_strlit("com.apple.Safari");
            assert("unknown"@.len() != "com.apple.Safari"@.len());
            reveal_strlit("com.apple.SafariTechnologyPreview");
            assert("unknown"@.len() != "com.apple.SafariTechnologyPreview"@.len());
            reveal_strlit("com.apple.Terminal");
            assert("unknown"@.len() != "com.apple.Terminal"@.len());
            reveal_strlit("com.googlecode.iterm2");
            assert("unknown"@.len() != "com.googlecode.iterm2"@.len());
            reveal_strlit("com.apple.dt.Xcode");
            assert("unknown"@.len() != "com.apple.dt.Xcode"@.len());
            reveal_strlit("notion.id");
            assert("unknown"@.len() != "notion.id"@.len());
            reveal_strlit("company.thebrowser.Browser");
            assert("unknown"@.len() != "company.thebrowser.Browser"@.len());
            reveal_strlit("company.thebrowser.dia");
            assert("unknown"@.len() != "company.thebrowser.dia"@.len());
            reveal_strlit("dev.warp.Warp-Stable");
            assert("unknown"@.len() != "dev.warp.Warp-Stable"@.len());
            reveal_strlit("us.zoom.xos");
            assert("unknown"@.len() != "us.zoom.xos"@.len());
            reveal_strlit("com.exafunction.windsurf");
            assert("unknown"@.len() != "com.exafunction.windsurf"@.len());
            reveal_strlit("com.todesktop.230313mzl4w4u92");
            assert("unknown"@.len() != "com.todesktop.230313mzl4w4u92"@.len());
        },
    }
}

/// The display name of each `Category`.
pub open spec fn category_name_of(x: Category) -> Seq<char> {
    match x {
        Category::Browsing => "Browsing"@,
        Category::Coding => "Coding"@,
        Category::Compiling => "Compiling"@,
        Category::Debugging => "Debugging"@,
        Category::Designing => "Designing"@,
        Category::CodeReviewing => "Code Reviewing"@,
        Category::Meeting => "Meeting"@,
        Category::Learning => "Learning"@,
        Category::Planning => "Planning"@,
        Category::WritingDocs => "Writing Docs"@,
        Category::Other => "Other"@,
    }
}

/// The `Category` whose display name is `s`, if any.
pub open spec fn category_for_name(s: Seq<char>) -> Option<Category> {
    if s == "Browsing"@ { Some(Category::Browsing) } else
    if s == "Coding"@ { Some(Category::Coding) } else
    if s == "Compiling"@ { Some(Category::Compiling) } else
    if s == "Debugging"@ { Some(Category::Debugging) } else
    if s == "Designing"@ { Some(Category::Designing) } else
    if s == "Code Reviewing"@ { Some(Category::CodeReviewing) } else
    if s == "Meeting"@ { Some(Category::Meeting) } else
    if s == "Learning"@ { Some(Category::Learning) } else
    if s == "Planning"@ { Some(Category::Planning) } else
    if s == "Writing Docs"@ { Some(Category::WritingDocs) } else
    if s == "Other"@ { Some(Category::Other) } else
    { None }
}

impl Category {
    /// The display name of this value.
    pub fn name(&self) -> (r: &'static str)
        ensures
            r@ == category_name_of(*self),
    {
        match self {
            Category::Browsing => "Browsing",
            Category::Coding => "Coding",
            Category::Compiling => "Compiling",
            Category::Debugging => "Debugging",
            Category::Designing => "Designing",
            Category::CodeReviewing => "Code Reviewing",
            Category::Meeting => "Meeting",
            Category::Learning => "Learning",
            Category::Planning => "Planning",
            Category::WritingDocs => "Writing Docs",
            Category::Other => "Other",
        }
    }

    /// The value whose display name is `s`, if any.
    pub fn from_name(s: &str) -> (r: Option<Category>)
        ensures
            r == category_for_name(s@),
    {
        let v = to_chars(s);
        if chars_eq(&v, &to_chars("Browsing")) {
            return Some(Category::Browsing);
        }
        if chars_eq(&v, &to_chars("Coding")) {
            return Some(Category::Coding);
        }
        if chars_eq(&v, &to_chars("Compiling")) {
            return Some(Category::Compiling);
        }
        if chars_eq(&v, &to_chars("Debugging")) {
            return Some(Category::Debugging);
        }
        if chars_eq(&v, &to_chars("Designing")) {
            return Some(Category::Designing);
        }
        if chars_eq(&v, &to_chars("Code Reviewing")) {
            return Some(Category::CodeReviewing);
        }
        if chars_eq(&v, &to_chars("Meeting")) {
            return Some(Category::Meeting);
        }
        if chars_eq(&v, &to_chars("Learning")) {
            return Some(Category::Learning);
        }
        if chars_eq(&v, &to_chars("Planning")) {
            return Some(Category::Planning);
        }
        if chars_eq(&v, &to_chars("Writing Docs")) {
            return Some(Category::WritingDocs);
        }
        if chars_eq(&v, &to_chars("Other")) {
            return Some(Category::Other);
        }
        None
    }
}

/// Reading back the display name of any `Category` gives that value again.
pub proof fn lemma_category_name_round_trip(x: Category)
    ensures
        category_for_name(category_name_of(x)) == Some(x),
{
    match x {
        Category::Browsing => {
            reveal_strlit("Browsing");
        },
        Category::Coding => {
            reveal_strlit("Coding");
            reveal_strlit("Browsing");
            assert("Coding"@.len() != "Browsing"@.len());
        },
        Category::Compiling => {
            reveal_strlit("Compiling");
            reveal_strlit("Browsing");
            assert("Compiling"@.len() != "Browsing"@.len());
            reveal_strlit("Coding");
            assert("Compiling"@.len() != "Coding"@.len());
        },
        Category::Debugging => {
            reveal_strlit("Debugging");
            reveal_strlit("Browsing");
            assert("Debugging"@.len() != "Browsing"@.len());
            reveal_strlit("Coding");
            assert("Debugging"@.len() != "Coding"@.len());
            reveal_strlit("Compiling");
            assert("Debugging"@[0] != "Compiling"@[0]);
        },
        Category::Designing => {
            reveal_strlit("Designing");
            reveal_strlit("Browsing");
            assert("Designing"@.len() != "Browsing"@.len());
            reveal_strlit("Coding");
            assert("Designing"@.len() != "Coding"@.len());
            reveal_strlit("Compiling");
            assert("Designing"@[0] != "Compiling"@[0]);
            reveal_strlit("Debugging");
            assert("Designing"@[2] != "Debugging"@[2]);
        },
        Category::CodeReviewing => {
            reveal_strlit("Code Reviewing");
            reveal_strlit("Browsing");
            assert("Code Reviewing"@.len() != "Browsing"@.len());
            reveal_strlit("Coding");
            assert("Code Reviewing"@.len() != "Coding"@.len());
            reveal_strlit("Compiling");
            assert("Code Reviewing"@.len() != "Compiling"@.len());
            reveal_strlit("Debugging");
            assert("Code Reviewing"@.len() != "Debugging"@.len());
            reveal_strlit("Designing");
            assert("Code Reviewing"@.len() != "Designing"@.len());
        },
        Category::Meeting => {
            reveal_strlit("Meeting");
            reveal_strlit("Browsing");
            assert("Meeting"@.len() != "Browsing"@.len());
            reveal_strlit("Coding");
            assert("Meeting"@.len() != "Coding"@.len());
            reveal_strlit("Compiling");
            assert("Meeting"@.len() != "Compiling"@.len());
            reveal_strlit("Debugging");
            assert("Meeting"@.len() != "Debugging"@.len());
            reveal_strlit("Designing");
            assert("Meeting"@.len() != "Designing"@.len());
            reveal_strlit("Code Reviewing");
            assert("Meeting"@.len() != "Code Reviewing"@.len());
        },
        Category::Learning => {
            reveal_strlit("Learning");
            reveal_strlit("Browsing");
            assert("Learning"@[0] != "Browsing"@[0]);
            reveal_strlit("Coding");
            assert("Learning"@.len() != "Coding"@.len());
            reveal_strlit("Compiling");
            assert("Learning"@.len() != "Compiling"@.len());
            reveal_strlit("Debugging");
            assert("Learning"@.len() != "Debugging"@.len());
            reveal_strlit("Designing");
            assert("Learning"@.len() != "Designing"@.len());
            reveal_strlit("Code Reviewing");
            assert("Learning"@.len() != "Code Reviewing"@.len());
            reveal_strlit("Meeting");
            assert("Learning"@.len() != "Meeting"@.len());
        },
        Category::Planning => {
            reveal_strlit("Planning");
            reveal_strlit("Browsing");
            assert("Planning"@[0] != "Browsing"@[0]);
            reveal_strlit("Coding");
            assert("Planning"@.len() != "Coding"@.len());
            reveal_strlit("Compiling");
            assert("Planning"@.len() != "Compiling"@.len());
            reveal_strlit("Debugging");
            assert("Planning"@.len() != "Debugging"@.len());
            reveal_strlit("Designing");
            assert("Planning"@.len() != "Designing"@.len());
            reveal_strlit("Code Reviewing");
            assert("Planning"@.len() != "Code Reviewing"@.len());
            reveal_strlit("Meeting");
            assert("Planning"@.len() != "Meeting"@.len());
            reveal_strlit("Learning");
            assert("Planning"@[0] != "Learning"@[0]);
        },
        Category::WritingDocs => {
            reveal_strlit("Writing Docs");
            reveal_strlit("Browsing");
            assert("Writing Docs"@.len() != "Browsing"@.len());
            reveal_strlit("Coding");
            assert("Writing Docs"@.len() != "Coding"@.len());
            reveal_strlit("Compiling");
            assert("Writing Docs"@.len() != "Compiling"@.len());
            reveal_strlit("Debugging");
            assert("Writing Docs"@.len() != "Debugging"@.len());
            reveal_strlit("Designing");
            assert("Writing Docs"@.len() != "Designing"@.len());
            reveal_strlit("Code Reviewing");
            assert("Writing Docs"@.len() != "Code Reviewing"@.len());
            reveal_strlit("Meeting");
            assert("Writing Docs"@.len() != "Meeting"@.len());
            reveal_strlit("Learning");
            assert("Writing Docs"@.len() != "Learning"@.len());
            reveal_strlit("Planning");
            assert("Writing Docs"@.len() != "Planning"@.len());
        },
        Category::Other => {
            reveal_strlit("Other");
            reveal_strlit("Browsing");
            assert("Other"@.len() != "Browsing"@.len());
            reveal_strlit("Coding");
            assert("Other"@.len() != "Coding"@.len());
            reveal_strlit("Compiling");
            assert("Other"@.len() != "Compiling"@.len());
            reveal_strlit("Debugging");
            assert("Other"@.len() != "Debugging"@.len());
            reveal_strlit("Designing");
            assert("Other"@.len() != "Designing"@.len());
            reveal_strlit("Code Reviewing");
            assert("Other"@.len() != "Code Reviewing"@.len());
            reveal_strlit("Meeting");
            assert("Other"@.len() != "Meeting"@.len());
            reveal_strlit("Learning");
            assert("Other"@.len() != "Learning"@.len());
            reveal_strlit("Planning");
            assert("Other"@.len() != "Planning"@.len());
            reveal_strlit("Writing Docs");
            assert("Other"@.len() != "Writing Docs"@.len());
        },
    }
}

/// The display name of each `Entity`.
pub open spec fn entity_name_of(x: Entity) -> Seq<char> {
    match x {
        Entity::File => "File"@,
        Entity::App => "App"@,
        Entity::Url => "Url"@,
    }
}

/// The `Entity` whose display name is `s`, if any.
pub open spec fn entity_for_name(s: Seq<char>) -> Option<Entity> {
    if s == "File"@ { Some(Entity::File) } else
    if s == "App"@ { Some(Entity::App) } else
    if s == "Url"@ { Some(Entity::Url) } else
    { None }
}

impl Entity {
    /// The display name of this value.
    pub fn name(&self) -> (r: &'static str)
        ensures
            r@ == entity_name_of(*self),
    {
        match self {
            Entity::File => "File",
            Entity::App => "App",
            Entity::Url => "Url",
        }
    }

    /// The value whose display name is `s`, if any.
    pub fn from_name(s: &str) -> (r: Option<Entity>)
        ensures
            r == entity_for_name(s@),
    {
        let v = to_chars(s);
        if chars_eq(&v, &to_chars("File")) {
            return Some(Entity::File);
        }
        if chars_eq(&v, &to_chars("App")) {
            return Some(Entity::App);
        }
        if chars_eq(&v, &to_chars("Url")) {
            return Some(Entity::Url);
        }
        None
    }
}

/// Reading back the display name of any `Entity` gives that value again.
pub proof fn lemma_entity_name_round_trip(x: Entity)
    ensures
        entity_for_name(entity_name_of(x)) == Some(x),
{
    match x {
        Entity::File => {
            reveal_strlit("File");
        },
        Entity::App => {
            reveal_strlit("App");
            reveal_strlit("File");
            assert("App"@.len() != "File"@.len());
        },
        Entity::Url => {
            reveal_strlit("Url");
            reveal_strlit("File");
            assert("Url"@.len() != "File"@.len());
            reveal_strlit("App");
            assert("Url"@[0] != "App"@[0]);
        },
    }
}


/// The names the outside world uses, read back: each application is
/// recognised by its bundle identifier (Brave by "com.brave.Browser", …,
/// Cursor by "com.todesktop.230313mzl4w4u92"), each category by its
/// display name ("Browsing" … "Writing Docs", "Other") and each entity type
/// by its name ("File", "App", "Url").
pub proof fn lemma_known_names()
    ensures
        app_for_bundle_id("com.brave.Browser"@) == MonitoredApp::Brave,
        app_for_bundle_id("com.google.Chrome"@) == MonitoredApp::Chrome,
        app_for_bundle_id("com.google.Chrome.beta"@) == MonitoredApp::ChromeBeta,
        app_for_bundle_id("com.google.Chrome.canary"@) == MonitoredApp::ChromeCanary,
        app_for_bundle_id("com.microsoft.VSCode"@) == MonitoredApp::Code,
        app_for_bundle_id("com.figma.Desktop"@) == MonitoredApp::Figma,
        app_for_bundle_id("org.mozilla.firefox"@) == MonitoredApp::Firefox,
        app_for_bundle_id("com.github.GithubClient"@) == MonitoredApp::Github,
        app_for_bundle_id("com.postmanlabs.mac"@) == MonitoredApp::Postman,
        app_for_bundle_id("com.apple.Safari"@) == MonitoredApp::Safari,
        app_for_bundle_id("com.apple.SafariTechnologyPreview"@) == MonitoredApp::SafariPreview,
        app_for_bundle_id("com.apple.Terminal"@) == MonitoredApp::Terminal,
        app_for_bundle_id("com.googlecode.iterm2"@) == MonitoredApp::Iterm,
        app_for_bundle_id("com.apple.dt.Xcode"@) == MonitoredApp::Xcode,
        app_for_bundle_id("notion.id"@) == MonitoredApp::Notion,
        app_for_bundle_id("company.thebrowser.Browser"@) == MonitoredApp::ArcBrowser,
        app_for_bundle_id("company.thebrowser.dia"@) == MonitoredApp::Dia,
        app_for_bundle_id("dev.warp.Warp-Stable"@) == MonitoredApp::Warp,
        app_for_bundle_id("us.zoom.xos"@) == MonitoredApp::Zoom,
        app_for_bundle_id("com.exafunction.windsurf"@) == MonitoredApp::Windsurf,
        app_for_bundle_id("com.todesktop.230313mzl4w4u92"@) == MonitoredApp::Cursor,
        category_for_name("Browsing"@) == Some(Category::Browsing),
        category_for_name("Coding"@) == Some(Category::Coding),
        category_for_name("Compiling"@) == Some(Category::Compiling),
        category_for_name("Debugging"@) == Some(Category::Debugging),
        category_for_name("Designing"@) == Some(Category::Designing),
        category_for_name("Code Reviewing"@) == Some(Category::CodeReviewing),
        category_for_name("Meeting"@) == Some(Category::Meeting),
        category_for_name("Learning"@) == Some(Category::Learning),
        category_for_name("Planning"@) == Some(Category::Planning),
        category_for_name("Writing Docs"@) == Some(Category::WritingDocs),
        category_for_name("Other"@) == Some(Category::Other),
        entity_for_name("File"@) == Some(Entity::File),
        entity_for_name("App"@) == Some(Entity::App),
        entity_for_name("Url"@) == Some(Entity::Url),
{
    lemma_bundle_id_round_trip(MonitoredApp::Brave);
    lemma_bundle_id_round_trip(MonitoredApp::Chrome);
    lemma_bundle_id_round_trip(MonitoredApp::ChromeBeta);
    lemma_bundle_id_round_trip(MonitoredApp::ChromeCanary);
    lemma_bundle_id_round_trip(MonitoredApp::Code);
    lemma_bundle_id_round_trip(MonitoredApp::Figma);
    lemma_bundle_id_round_trip(MonitoredApp::Firefox);
    lemma_bundle_id_round_trip(MonitoredApp::Github);
    lemma_bundle_id_round_trip(MonitoredApp::Postman);
    lemma_bundle_id_round_trip(MonitoredApp::Safari);
    lemma_bundle_id_round_trip(MonitoredApp::SafariPreview);
    lemma_bundle_id_round_trip(MonitoredApp::Terminal);
    lemma_bundle_id_round_trip(MonitoredApp::Iterm);
    lemma_bundle_id_round_trip(MonitoredApp::Xcode);
    lemma_bundle_id_round_trip(MonitoredApp::Notion);
    lemma_bundle_id_round_trip(MonitoredApp::ArcBrowser);
    lemma_bundle_id_round_trip(MonitoredApp::Dia);
    lemma_bundle_id_round_trip(MonitoredApp::Warp);
    lemma_bundle_id_round_trip(MonitoredApp::Zoom);
    lemma_bundle_id_round_trip(MonitoredApp::Windsurf);
    lemma_bundle_id_round_trip(MonitoredApp::Cursor);
    lemma_category_name_round_trip(Category::Browsing);
    lemma_category_name_round_trip(Category::Coding);
    lemma_category_name_round_trip(Category::Compiling);
    lemma_category_name_round_trip(Category::Debugging);
    lemma_category_name_round_trip(Category::Designing);
    lemma_category_name_round_trip(Category::CodeReviewing);
    lemma_category_name_round_trip(Category::Meeting);
    lemma_category_name_round_trip(Category::Learning);
    lemma_category_name_round_trip(Category::Planning);
    lemma_category_name_round_trip(Category::WritingDocs);
    lemma_category_name_round_trip(Category::Other);
    lemma_entity_name_round_trip(Entity::File);
    lemma_entity_name_round_trip(Entity::App);
    lemma_entity_name_round_trip(Entity::Url);
}

/// The browsers whose active tab is tracked.
pub open spec fn is_browser_app(a: MonitoredApp) -> bool {
    a is Brave || a is Chrome || a is ChromeBeta || a is ChromeCanary || a is Safari
        || a is SafariPreview || a is Firefox || a is ArcBrowser || a is Dia
}

/// The applications that are not tracked, with the reason shown to the user.
pub open spec fn ignored_reason_of(a: MonitoredApp) -> Option<Seq<char>> {
    match a {
        MonitoredApp::Code => Some(
            "An editor extension for Visual Studio Code is available to capture more accurate data"@,
        ),
        MonitoredApp::Windsurf => Some(
            "An editor extension for Windsurf is available to capture more accurate data"@,
        ),
        MonitoredApp::Cursor => Some(
            "An editor extension for Cursor is available to capture more accurate data"@,
        ),
        _ => None,
    }
}

/// Applications whose category is fixed.
pub open spec fn fixed_category_of(a: MonitoredApp) -> Option<Category> {
    match a {
        MonitoredApp::Figma => Some(Category::Designing),
        MonitoredApp::Notion => Some(Category::Planning),
        MonitoredApp::Zoom => Some(Category::Meeting),
        MonitoredApp::Github => Some(Category::CodeReviewing),
        MonitoredApp::Postman => Some(Category::Debugging),
        MonitoredApp::Warp => Some(Category::Coding),
        MonitoredApp::Terminal => Some(Category::Coding),
        MonitoredApp::Iterm => Some(Category::Coding),
        _ => None,
    }
}

impl MonitoredApp {
    /// Whether this application is a browser.
    pub fn is_browser(&self) -> (r: bool)
        ensures
            r == is_browser_app(*self),
    {
        match self {
            MonitoredApp::Brave | MonitoredApp::Chrome | MonitoredApp::ChromeBeta
            | MonitoredApp::ChromeCanary | MonitoredApp::Safari | MonitoredApp::SafariPreview
            | MonitoredApp::Firefox | MonitoredApp::ArcBrowser | MonitoredApp::Dia => true,
            _ => false,
        }
    }

    /// Why this application is not tracked, if it is not.
    pub fn ignored_reason(&self) -> (r: Option<&'static str>)
        ensures
            r.deep_view() == ignored_reason_of(*self),
    {
        match self {
            MonitoredApp::Code => Some(
                "An editor extension for Visual Studio Code is available to capture more accurate data",
            ),
            MonitoredApp::Windsurf => Some(
                "An editor extension for Windsurf is available to capture more accurate data",
            ),
            MonitoredApp::Cursor => Some(
                "An editor extension for Cursor is available to capture more accurate data",
            ),
            _ => None,
        }
    }

    /// The category this application always has, if any.
    pub fn fixed_category(&self) -> (r: Option<Category>)
        ensures
            r == fixed_category_of(*self),
    {
        match self {
            MonitoredApp::Figma => Some(Category::Designing),
            MonitoredApp::Notion => Some(Category::Planning),
            MonitoredApp::Zoom => Some(Category::Meeting),
            MonitoredApp::Github => Some(Category::CodeReviewing),
            MonitoredApp::Postman => Some(Category::Debugging),
            MonitoredApp::Warp => Some(Category::Coding),
            MonitoredApp::Terminal => Some(Category::Coding),
            MonitoredApp::Iterm => Some(Category::Coding),
            _ => None,
        }
    }
}

/// Sites of code review.
pub open spec fn is_code_review_url(url: Seq<char>) -> bool {
    occurs_in("github.com"@, url) || occurs_in("gitlab.com"@, url) || occurs_in("bitbucket.org"@, url)
}

/// Sites of meetings.
pub open spec fn is_meeting_url(url: Seq<char>) -> bool {
    occurs_in("meet.google.com"@, url) || occurs_in("zoom.us"@, url) || occurs_in(
        "teams.microsoft.com"@,
        url,
    ) || occurs_in("webex.com"@, url) || occurs_in("slack.com/call"@, url)
}

/// Sites of learning.
pub open spec fn is_learning_url(url: Seq<char>) -> bool {
    occurs_in("udemy.com"@, url) || occurs_in("coursera.org"@, url) || occurs_in(
        "khanacademy.org"@,
        url,
    ) || occurs_in("codecademy.com"@, url) || occurs_in("educative.io"@, url)
}

/// Sites of coding.
pub open spec fn is_coding_url(url: Seq<char>) -> bool {
    occurs_in("leetcode.com"@, url) || occurs_in("stackoverflow.com"@, url) || occurs_in(
        "w3schools.com"@,
        url,
    ) || occurs_in("developer.mozilla.org"@, url) || occurs_in("codewars.com"@, url)
}

/// The category of browsing `url`: the first group of known sites that
/// the URL mentions decides, in the order review, meeting, learning,
/// coding; any other URL is browsing.
pub open spec fn browser_category_of(url: Seq<char>) -> Category {
    if is_code_review_url(url) {
        Category::CodeReviewing
    } else if is_meeting_url(url) {
        Category::Meeting
    } else if is_learning_url(url) {
        Category::Learning
    } else if is_coding_url(url) {
        Category::Coding
    } else {
        Category::Browsing
    }
}

/// Classifies a browser's URL (see [`browser_category_of`]).
pub fn get_browser_category(url: &str) -> (r: Category)
    ensures
        r == browser_category_of(url@),
{
    if contains_str(url, "github.com") || contains_str(url, "gitlab.com") || contains_str(
        url,
        "bitbucket.org",
    ) {
        return Category::CodeReviewing;
    }
    if contains_str(url, "meet.google.com") || contains_str(url, "zoom.us") || contains_str(
        url,
        "teams.microsoft.com",
    ) || contains_str(url, "webex.com") || contains_str(url, "slack.com/call") {
        return Category::Meeting;
    }
    if contains_str(url, "udemy.com") || contains_str(url, "coursera.org") || contains_str(
        url,
        "khanacademy.org",
    ) || contains_str(url, "codecademy.com") || contains_str(url, "educative.io") {
        return Category::Learning;
    }
    if contains_str(url, "leetcode.com") || contains_str(url, "stackoverflow.com") || contains_str(
        url,
        "w3schools.com",
    ) || contains_str(url, "developer.mozilla.org") || contains_str(url, "codewars.com") {
        return Category::Coding;
    }
    Category::Browsing
}

/// Languages whose files are documentation.
pub open spec fn is_documentation_language(lang: Seq<char>) -> bool {
    lang == "Markdown"@ || lang == "Org"@ || lang == "ReStructuredText"@ || lang == "Text"@
        || lang == "Tex"@
}

/// Whether the language detected for an entity is a documentation one.
pub open spec fn is_documentation_entity_of(entity: Seq<char>, file_language: Option<Seq<char>>) -> bool {
    match detected_language(entity, file_language) {
        Some(l) => is_documentation_language(l),
        None => false,
    }
}

/// Whether the file `entity_path` holds documentation, judged by its
/// language (by extension, else `file_language`, found in its contents).
pub fn is_documentation_entity(entity_path: &str, file_language: Option<String>) -> (r: bool)
    ensures
        r == is_documentation_entity_of(entity_path@, file_language.deep_view()),
{
    match detect_language(entity_path, file_language) {
        Some(l) => {
            let s = l.as_str();
            str_eq(s, "Markdown") || str_eq(s, "Org") || str_eq(s, "ReStructuredText") || str_eq(
                s,
                "Text",
            ) || str_eq(s, "Tex")
        },
        None => false,
    }
}

/// How browsing is classified, over every URL: a URL on GitHub, GitLab or
/// Bitbucket is code review whatever else it mentions; otherwise a
/// meeting site (Google Meet, Zoom, Teams, Webex, Slack calls) makes a
/// meeting; otherwise a learning site (Udemy, Coursera, Khan Academy,
/// Codecademy, Educative) learning; otherwise a coding site (LeetCode,
/// Stack Overflow, W3Schools, MDN, Codewars) coding; any other URL is
/// browsing. Each category is given for exactly those URLs.
pub proof fn lemma_browser_categories(url: Seq<char>)
    ensures
        ({
            let review = occurs_in("github.com"@, url) || occurs_in("gitlab.com"@, url)
                || occurs_in("bitbucket.org"@, url);
            let meeting = occurs_in("meet.google.com"@, url) || occurs_in("zoom.us"@, url)
                || occurs_in("teams.microsoft.com"@, url) || occurs_in("webex.com"@, url)
                || occurs_in("slack.com/call"@, url);
            let learning = occurs_in("udemy.com"@, url) || occurs_in("coursera.org"@, url)
                || occurs_in("khanacademy.org"@, url) || occurs_in("codecademy.com"@, url)
                || occurs_in("educative.io"@, url);
            let coding = occurs_in("leetcode.com"@, url) || occurs_in("stackoverflow.com"@, url)
                || occurs_in("w3schools.com"@, url) || occurs_in("developer.mozilla.org"@, url)
                || occurs_in("codewars.com"@, url);
            &&& (browser_category_of(url) == Category::CodeReviewing <==> review)
            &&& (browser_category_of(url) == Category::Meeting <==> !review && meeting)
            &&& (browser_category_of(url) == Category::Learning <==> !review && !meeting && learning)
            &&& (browser_category_of(url) == Category::Coding <==> !review && !meeting && !learning && coding)
            &&& (browser_category_of(url) == Category::Browsing <==> !review && !meeting && !learning && !coding)
        }),
{
}

/// What the applications are, over every application: the nine browsers
/// (Brave, Chrome and its beta and canary, Safari and its technology
/// preview, Firefox, Arc, Dia); the three editors left to their own
/// extensions (VS Code, Windsurf, Cursor); and the fixed categories
/// (Figma designing, Notion planning, Zoom meeting, GitHub Desktop code
/// review, Postman debugging, Warp, Terminal and iTerm coding).
pub proof fn lemma_application_classes(a: MonitoredApp)
    ensures
        is_browser_app(a) <==> (a == MonitoredApp::Brave || a == MonitoredApp::Chrome || a == MonitoredApp::ChromeBeta
            || a == MonitoredApp::ChromeCanary || a == MonitoredApp::Safari || a == MonitoredApp::SafariPreview
            || a == MonitoredApp::Firefox || a == MonitoredApp::ArcBrowser || a == MonitoredApp::Dia),
        ignored_reason_of(a) is Some <==> (a == MonitoredApp::Code || a == MonitoredApp::Windsurf
            || a == MonitoredApp::Cursor),
        fixed_category_of(a) == (if a == MonitoredApp::Figma {
            Some(Category::Designing)
        } else if a == MonitoredApp::Notion {
            Some(Category::Planning)
        } else if a == MonitoredApp::Zoom {
            Some(Category::Meeting)
        } else if a == MonitoredApp::Github {
            Some(Category::CodeReviewing)
        } else if a == MonitoredApp::Postman {
            Some(Category::Debugging)
        } else if a == MonitoredApp::Warp || a == MonitoredApp::Terminal || a == MonitoredApp::Iterm {
            Some(Category::Coding)
        } else {
            None::<Category>
        }),
        entity_type_of(a) == (if is_browser_app(a) {
            Entity::Url
        } else if a == MonitoredApp::Xcode {
            Entity::File
        } else {
            Entity::App
        }),
{
}

/// What is known of Xcode beyond the accessibility snapshot: whether it is
/// building or debugging (read from its window), and the language found
/// in the contents of its active document.
#[derive(Debug, Clone)]
pub struct XcodeSignals {
    pub compiling: bool,
    pub debugging: bool,
    pub file_language: Option<String>,
}

/// The category of Xcode activity on `entity`.
pub open spec fn xcode_category_of(entity: Seq<char>, signals: XcodeSignals) -> Category {
    if signals.compiling {
        Category::Compiling
    } else if signals.debugging {
        Category::Debugging
    } else if is_documentation_entity_of(entity, signals.file_language.deep_view()) {
        Category::WritingDocs
    } else {
        Category::Coding
    }
}

/// The category of activity in application `a` on `entity` (Xcode) or at
/// `url` (browsers).
pub open spec fn category_of(
    a: MonitoredApp,
    entity: Option<Seq<char>>,
    url: Option<Seq<char>>,
    signals: XcodeSignals,
) -> Category {
    match fixed_category_of(a) {
        Some(c) => c,
        None => if is_browser_app(a) {
            match url {
                Some(u) => browser_category_of(u),
                None => Category::Browsing,
            }
        } else if a is Xcode {
            xcode_category_of(
                match entity {
                    Some(e) => e,
                    None => Seq::empty(),
                },
                signals,
            )
        } else {
            Category::Other
        },
    }
}

/// The kind of entity tracked in application `a`.
pub open spec fn entity_type_of(a: MonitoredApp) -> Entity {
    if is_browser_app(a) {
        Entity::Url
    } else if a is Xcode {
        Entity::File
    } else {
        Entity::App
    }
}

/// What Xcode work is, over every document and window state: building
/// wins, then debugging; otherwise a document whose detected language is
/// Markdown, Org, ReStructuredText, Text or TeX is documentation writing,
/// and any other is coding. Those five languages, and only they, make a
/// documentation file.
pub proof fn lemma_xcode_categories(entity: Seq<char>, signals: XcodeSignals)
    ensures
        ({
            let docs = match detected_language(entity, signals.file_language.deep_view()) {
                Some(l) => l == "Markdown"@ || l == "Org"@ || l == "ReStructuredText"@ || l == "Text"@
                    || l == "Tex"@,
                None => false,
            };
            &&& (is_documentation_entity_of(entity, signals.file_language.deep_view()) <==> docs)
            &&& (signals.compiling ==> xcode_category_of(entity, signals) == Category::Compiling)
            &&& (!signals.compiling && signals.debugging ==> xcode_category_of(entity, signals) == Category::Debugging)
            &&& (!signals.compiling && !signals.debugging && docs ==> xcode_category_of(entity, signals)
                == Category::WritingDocs)
            &&& (!signals.compiling && !signals.debugging && !docs ==> xcode_category_of(entity, signals)
                == Category::Coding)
        }),
{
}

/// Classifies Xcode activity (see [`xcode_category_of`]).
pub fn get_xcode_category(entity: &str, signals: &XcodeSignals) -> (r: Category)
    ensures
        r == xcode_category_of(entity@, *signals),
{
    if signals.compiling {
        return Category::Compiling;
    }
    if signals.debugging {
        return Category::Debugging;
    }
    if is_documentation_entity(entity, signals.file_language.clone()) {
        return Category::WritingDocs;
    }
    Category::Coding
}

impl MonitoredApp {
    /// The category of activity in this application (see [`category_of`]).
    pub fn get_category(&self, entity: Option<&str>, url: Option<&str>, signals: &XcodeSignals) -> (r: Category)
        ensures
            r == category_of(
                *self,
                match entity {
                    Some(e) => Some(e@),
                    None => None,
                },
                match url {
                    Some(u) => Some(u@),
                    None => None,
                },
                *signals,
            ),
    {
        if let Some(c) = self.fixed_category() {
            return c;
        }
        if self.is_browser() {
            if let Some(u) = url {
                return get_browser_category(u);
            }
            return Category::Browsing;
        }
        if let MonitoredApp::Xcode = self {
            return match entity {
                Some(e) => get_xcode_category(e, signals),
                None => {
                    proof {
                        reveal_strlit("");
                    }
                    assert(""@ =~= Seq::<char>::empty());
                    get_xcode_category("", signals)
                },
            };
        }
        Category::Other
    }

    /// The kind of entity tracked in this application.
    pub fn get_entity_type(&self) -> (r: Entity)
        ensures
            r == entity_type_of(*self),
    {
        if self.is_browser() {
            Entity::Url
        } else if let MonitoredApp::Xcode = self {
            Entity::File
        } else {
            Entity::App
        }
    }
}

/// The classified activity in the frontmost application.
#[derive(Debug)]
pub struct AppDetails {
    pub project_name: Option<String>,
    pub project_path: Option<String>,
    pub entity: String,
    pub entity_type: Entity,
    pub category: Category,
    pub language: Option<String>,
}

/// The document Xcode works on: the snapshot's Xcode document unless it
/// is blank or `unknown`, else the window title, else `unknown`.
pub open spec fn xcode_entity_path_of(snapshot: AxSnapshot) -> Seq<char> {
    let e = match snapshot.xcode {
        Some(x) => x.entity_path@,
        None => Seq::empty(),
    };
    if is_blank_text(e) || e == "unknown"@ {
        match snapshot.window_title {
            Some(t) => t@,
            None => "unknown"@,
        }
    } else {
        e
    }
}

/// A text that is present and not empty.
pub open spec fn nonempty_text(o: Option<String>) -> Option<Seq<char>> {
    match o {
        Some(s) => if s@.len() > 0 { Some(s@) } else { None },
        None => None,
    }
}

/// The Xcode project path: the snapshot's, else the application path.
pub open spec fn xcode_project_path_of_snapshot(snapshot: AxSnapshot, app_path: Seq<char>) -> Seq<char> {
    match snapshot.xcode {
        Some(x) => match nonempty_text(x.project_path) {
            Some(p) => p,
            None => app_path,
        },
        None => app_path,
    }
}

/// The Xcode project name: the snapshot's, else the lowercased app name.
pub open spec fn xcode_project_name_of_snapshot(snapshot: AxSnapshot, app_name: Seq<char>) -> Seq<char> {
    match snapshot.xcode {
        Some(x) => match nonempty_text(x.project_name) {
            Some(p) => p,
            None => lowercase_of(app_name),
        },
        None => lowercase_of(app_name),
    }
}

/// Whether the snapshot holds a browser tab with both a URL and a domain.
pub open spec fn has_usable_tab(snapshot: AxSnapshot) -> bool {
    match snapshot.browser {
        Some(b) => b.url@.len() > 0 && b.domain@.len() > 0,
        None => false,
    }
}

fn text_or_none(o: &Option<String>) -> (r: Option<String>)
    ensures
        r.deep_view() == nonempty_text(*o),
{
    match o {
        Some(s) => if s.as_str().unicode_len() > 0 {
            Some(s.clone())
        } else {
            None
        },
        None => None,
    }
}

/// The document Xcode works on (see [`xcode_entity_path_of`]).
pub fn xcode_entity_path(snapshot: &AxSnapshot) -> (r: String)
    ensures
        r@ == xcode_entity_path_of(*snapshot),
{
    let e = match &snapshot.xcode {
        Some(x) => x.entity_path.clone(),
        None => String::new(),
    };
    if is_blank(e.as_str()) || str_eq(e.as_str(), "unknown") {
        match &snapshot.window_title {
            Some(t) => t.clone(),
            None => String::from_str("unknown"),
        }
    } else {
        e
    }
}

/// Classifies the activity in the frontmost application `app` from its
/// name and path, the entity it reports (its window title), the
/// accessibility snapshot and, for Xcode, the extra `signals`.
///
/// Xcode reports its document and project (filled in from the window
/// title, the app path and the lowercased app name where missing).
/// Browsers with a known tab report the tab: the domain as project, the
/// URL as project path and the URL path as entity. Everything else is
/// tracked as the application itself.
pub fn resolve_app_details(
    app: &MonitoredApp,
    app_name: &str,
    app_path: &str,
    entity: &str,
    snapshot: &AxSnapshot,
    signals: &XcodeSignals,
) -> (r: AppDetails)
    ensures
        *app is Xcode ==> {
            let e = xcode_entity_path_of(*snapshot);
            &&& r.project_name.deep_view() == Some(xcode_project_name_of_snapshot(*snapshot, app_name@))
            &&& r.project_path.deep_view() == Some(xcode_project_path_of_snapshot(*snapshot, app_path@))
            &&& r.entity@ == e
            &&& r.language.deep_view() == detected_language(e, signals.file_language.deep_view())
            &&& r.entity_type == Entity::File
            &&& r.category == xcode_category_of(e, *signals)
        },
        !(*app is Xcode) && is_browser_app(*app) && has_usable_tab(*snapshot) ==> {
            let b = snapshot.browser->0;
            &&& r.project_name.deep_view() == Some(b.domain@)
            &&& r.project_path.deep_view() == Some(b.url@)
            &&& r.entity@ == b.path@
            &&& r.language is None
            &&& r.entity_type == Entity::Url
            &&& r.category == browser_category_of(b.url@)
        },
        !(*app is Xcode) && !(is_browser_app(*app) && has_usable_tab(*snapshot)) ==> {
            &&& r.project_name.deep_view() == Some(lowercase_of(app_name@))
            &&& r.project_path.deep_view() == Some(app_path@)
            &&& r.entity@ == entity@
            &&& r.language is None
            &&& r.entity_type == (if is_browser_app(*app) { Entity::App } else { entity_type_of(*app) })
            &&& r.category == category_of(*app, None, None, *signals)
        },
{
    match app {
        MonitoredApp::Xcode => {
            let entity_path = xcode_entity_path(snapshot);
            let project_path = match &snapshot.xcode {
                Some(x) => match text_or_none(&x.project_path) {
                    Some(p) => p,
                    None => String::from_str(app_path),
                },
                None => String::from_str(app_path),
            };
            let project_name = match &snapshot.xcode {
                Some(x) => match text_or_none(&x.project_name) {
                    Some(p) => p,
                    None => to_lowercase(app_name),
                },
                None => to_lowercase(app_name),
            };
            let language = detect_language(entity_path.as_str(), signals.file_language.clone());
            let category = app.get_category(Some(entity_path.as_str()), None, signals);
            AppDetails {
                project_name: Some(project_name),
                project_path: Some(project_path),
                entity: entity_path,
                language,
                entity_type: app.get_entity_type(),
                category,
            }
        },
        _ => {
            if app.is_browser() {
                if let Some(b) = &snapshot.browser {
                    if b.url.as_str().unicode_len() > 0 && b.domain.as_str().unicode_len() > 0 {
                        return AppDetails {
                            project_name: Some(b.domain.clone()),
                            project_path: Some(b.url.clone()),
                            entity: b.path.clone(),
                            language: None,
                            category: app.get_category(None, Some(b.url.as_str()), signals),
                            entity_type: app.get_entity_type(),
                        };
                    }
                }
                AppDetails {
                    project_name: Some(to_lowercase(app_name)),
                    project_path: Some(String::from_str(app_path)),
                    entity: String::from_str(entity),
                    language: None,
                    category: app.get_category(None, None, signals),
                    entity_type: Entity::App,
                }
            } else {
                AppDetails {
                    project_name: Some(to_lowercase(app_name)),
                    project_path: Some(String::from_str(app_path)),
                    entity: String::from_str(entity),
                    entity_type: app.get_entity_type(),
                    category: app.get_category(None, None, signals),
                    language: None,
                }
            }
        },
    }
}

/// Whether the application with this bundle identifier is never tracked.
pub fn is_ignored_bundle(bundle_id: &str) -> (r: bool)
    ensures
        r == ignored_reason_of(app_for_bundle_id(bundle_id@)) is Some,
{
    MonitoredApp::from_bundle_id(bundle_id).ignored_reason().is_some()
}

/// Whether the bundle identifier is Xcode's.
pub fn is_xcode_bundle(bundle_id: &str) -> (r: bool)
    ensures
        r == (app_for_bundle_id(bundle_id@) is Xcode),
{
    match MonitoredApp::from_bundle_id(bundle_id) {
        MonitoredApp::Xcode => true,
        _ => false,
    }
}

/// An application the user can choose to track.
#[derive(Debug)]
pub struct TrackedApp {
    pub name: String,
    pub bundle_id: String,
}

/// An open application, with why it cannot be tracked, if it cannot.
#[derive(Debug)]
pub struct OpenApp {
    pub app: TrackedApp,
    pub block_reason: Option<String>,
}

/// The open applications as offered to the user: each with the reason it
/// is not tracked, if it is one of the ignored ones.
pub fn get_open_apps(apps: Vec<TrackedApp>) -> (r: Vec<OpenApp>)
    ensures
        r@.len() == apps@.len(),
        forall|i: int| 0 <= i < apps@.len() ==> {
            &&& (#[trigger] r@[i]).app == apps@[i]
            &&& r@[i].block_reason.deep_view() == ignored_reason_of(app_for_bundle_id(apps@[i].bundle_id@))
        },
{
    let mut out: Vec<OpenApp> = Vec::new();
    let mut rest = apps;
    let ghost all = rest@;
    let mut reversed: Vec<TrackedApp> = Vec::new();
    while rest.len() > 0
        invariant
            reversed@.len() + rest@.len() == all.len(),
            rest@ == all.take(rest@.len() as int),
            forall|i: int| 0 <= i < reversed@.len() ==> reversed@[i] == all[all.len() - 1 - i],
        decreases rest@.len(),
    {
        let a = rest.pop().unwrap();
        reversed.push(a);
        assert(rest@ =~= all.take(rest@.len() as int));
    }
    while reversed.len() > 0
        invariant
            out@.len() + reversed@.len() == all.len(),
            forall|i: int| 0 <= i < reversed@.len() ==> reversed@[i] == all[all.len() - 1 - i],
            forall|i: int| 0 <= i < out@.len() ==> {
                &&& (#[trigger] out@[i]).app == all[i]
                &&& out@[i].block_reason.deep_view() == ignored_reason_of(app_for_bundle_id(all[i].bundle_id@))
            },
        decreases reversed@.len(),
    {
        let a = reversed.pop().unwrap();
        let reason = match MonitoredApp::from_bundle_id(a.bundle_id.as_str()).ignored_reason() {
            Some(s) => Some(String::from_str(s)),
            None => None,
        };
        out.push(OpenApp { app: a, block_reason: reason });
    }
    out
}

/// How a running application takes part in the user interface.
#[derive(Debug, Clone, Copy, PartialEq, Eq, Structural)]
pub enum ActivationPolicy {
    /// An ordinary application with a Dock icon.
    Regular,
    /// An application without a Dock icon that may show windows.
    Accessory,
    /// A background application that shows no windows.
    Prohibited,
}

/// A running application as the system lists it (`None` where the
/// system gave no name or bundle identifier).
#[derive(Debug)]
pub struct RunningApp {
    pub policy: ActivationPolicy,
    pub name: Option<String>,
    pub bundle_id: Option<String>,
}

/// The text, or `unknown` when absent.
pub open spec fn or_unknown(o: Option<String>) -> Seq<char> {
    match o {
        Some(s) => s@,
        None => "unknown"@,
    }
}

/// The applications the user can choose from, as (name, bundle
/// identifier): the regular ones, in order.
pub open spec fn listed_apps_of(apps: Seq<RunningApp>) -> Seq<(Seq<char>, Seq<char>)>
    decreases apps.len(),
{
    if apps.len() == 0 {
        Seq::empty()
    } else {
        let rest = listed_apps_of(apps.drop_last());
        let a = apps.last();
        if a.policy == ActivationPolicy::Regular {
            rest.push((or_unknown(a.name), or_unknown(a.bundle_id)))
        } else {
            rest
        }
    }
}

pub(crate) fn text_or_unknown(o: &Option<String>) -> (r: String)
    ensures
        r@ == or_unknown(*o),
{
    match o {
        Some(s) => s.clone(),
        None => String::from_str("unknown"),
    }
}

/// The running applications offered for tracking (see
/// [`listed_apps_of`]).
pub fn list_open_apps(running: &Vec<RunningApp>) -> (r: Vec<TrackedApp>)
    ensures
        r@.map_values(|t: TrackedApp| (t.name@, t.bundle_id@)) == listed_apps_of(running@),
{
    let mut out: Vec<TrackedApp> = Vec::new();
    let mut i: usize = 0;
    while i < running.len()
        invariant
            i <= running@.len(),
            out@.map_values(|t: TrackedApp| (t.name@, t.bundle_id@)) == listed_apps_of(running@.take(i as int)),
        decreases running@.len() - i,
    {
        let a = &running[i];
        assert(running@.take(i + 1).drop_last() =~= running@.take(i as int));
        match a.policy {
            ActivationPolicy::Regular => {
                let t = TrackedApp { name: text_or_unknown(&a.name), bundle_id: text_or_unknown(&a.bundle_id) };
                let ghost before = out@;
                out.push(t);
                assert(out@.map_values(|t: TrackedApp| (t.name@, t.bundle_id@)) =~= before.map_values(
                    |t: TrackedApp| (t.name@, t.bundle_id@),
                ).push((or_unknown(a.name), or_unknown(a.bundle_id))));
            },
            _ => {},
        }
        i += 1;
    }
    assert(running@.take(running@.len() as int) =~= running@);
    out
}

/// Time tracked for one group (an application, a project, a category).
#[derive(Debug)]
pub struct GroupedTimeSummary {
    pub group_key: String,
    pub total_seconds: i64,
}

/// The system's accessibility provider; its queries live with the
/// operating-system bindings.
#[derive(Debug)]
pub struct SystemAxProvider;

} // verus!
