//! Installing and running the local server: the release manifest, the
//! download's progress and digest, the archive entry holding the
//! binary, the launch agent and its `launchctl` commands, and the
//! version check.

use vstd::prelude::*;
use crate::duration::{decimal, decimal_string};
use crate::paths::file_name_of;
use crate::text::{to_chars, from_chars, chars_eq, ascii_lower, ascii_lower_text};

verus! {

/// The launch agent label of the server.
pub const PLIST_LABEL: &'static str = "com.samwahome.skopio.server";

/// The file name of the server binary.
pub const BIN_NAME: &'static str = "skopio-server";

/// The server's state as shown to the user.
#[derive(Debug)]
pub enum ServerStatus {
    Offline,
    Checking,
    Downloading { received: u64, total: Option<u64>, percent: Option<u8> },
    Installing,
    Starting,
    Running,
    Updating,
    Error { message: String },
}

/// Why installing or controlling the server failed. Errors of outside
/// libraries carry their message.
#[derive(Debug)]
pub enum ServerCtlError {
    Io(String),
    Reqwest(String),
    BadStatus(String),
    DigestMismatch,
    Launchctl(String),
    Tauri(String),
    Manifest(String),
    Json(String),
    Zip(String),
    Semver(String),
}

/// The message shown for an error.
pub open spec fn error_message_of(e: ServerCtlError) -> Seq<char> {
    match e {
        ServerCtlError::Io(m) => "IO error: "@ + m@,
        ServerCtlError::Reqwest(m) => "Reqwest error: "@ + m@,
        ServerCtlError::BadStatus(m) => "Bad response status: "@ + m@,
        ServerCtlError::DigestMismatch => "Digest mismatch"@,
        ServerCtlError::Launchctl(m) => "Launchctl failed: "@ + m@,
        ServerCtlError::Tauri(m) => "Tauri error: "@ + m@,
        ServerCtlError::Manifest(m) => "Manifest error: "@ + m@,
        ServerCtlError::Json(m) => "JSON error: "@ + m@,
        ServerCtlError::Zip(m) => "Zip error: "@ + m@,
        ServerCtlError::Semver(m) => "Semver error: "@ + m@,
    }
}

impl ServerCtlError {
    /// The message shown for this error.
    pub fn message(&self) -> (r: String)
        ensures
            r@ == error_message_of(*self),
    {
        match self {
            ServerCtlError::Io(m) => String::from_str("IO error: ").concat(m.as_str()),
            ServerCtlError::Reqwest(m) => String::from_str("Reqwest error: ").concat(m.as_str()),
            ServerCtlError::BadStatus(m) => String::from_str("Bad response status: ").concat(
                m.as_str(),
            ),
            ServerCtlError::DigestMismatch => String::from_str("Digest mismatch"),
            ServerCtlError::Launchctl(m) => String::from_str("Launchctl failed: ").concat(m.as_str()),
            ServerCtlError::Tauri(m) => String::from_str("Tauri error: ").concat(m.as_str()),
            ServerCtlError::Manifest(m) => String::from_str("Manifest error: ").concat(m.as_str()),
            ServerCtlError::Json(m) => String::from_str("JSON error: ").concat(m.as_str()),
            ServerCtlError::Zip(m) => String::from_str("Zip error: ").concat(m.as_str()),
            ServerCtlError::Semver(m) => String::from_str("Semver error: ").concat(m.as_str()),
        }
    }
}

/// A release asset.
#[derive(Debug)]
pub struct Asset {
    pub url: String,
    pub sha256: String,
    pub size: Option<u64>,
}

/// The assets of a release, by platform.
#[derive(Debug)]
pub struct ManifestAssets {
    pub darwin_aarch64: Option<Asset>,
    pub darwin_x86_64: Option<Asset>,
}

/// The release manifest of the server.
#[derive(Debug)]
pub struct Manifest {
    pub version: String,
    pub released_at: Option<String>,
    pub assets: ManifestAssets,
}

/// The asset for the machine architecture `arch`, or why there is none.
pub open spec fn picked_asset(m: Manifest, arch: Seq<char>) -> Result<Asset, ServerCtlError> {
    if arch == "aarch64"@ {
        match m.assets.darwin_aarch64 {
            Some(a) => Ok(a),
            None => Err(ServerCtlError::Manifest(arbitrary())),
        }
    } else if arch == "x86_64"@ {
        match m.assets.darwin_x86_64 {
            Some(a) => Ok(a),
            None => Err(ServerCtlError::Manifest(arbitrary())),
        }
    } else {
        Err(ServerCtlError::Manifest(arbitrary()))
    }
}

/// The message for a manifest without a fitting asset.
pub open spec fn missing_asset_message(arch: Seq<char>) -> Seq<char> {
    if arch == "aarch64"@ {
        "missing darwin-aarch64 in manifest"@
    } else if arch == "x86_64"@ {
        "missing darwin-x86_64 in manifest"@
    } else {
        "Unsupported arch: "@ + arch
    }
}

/// Picks the asset for the machine architecture `arch` (`aarch64` or
/// `x86_64`).
pub fn pick_asset<'a>(m: &'a Manifest, arch: &str) -> (r: Result<&'a Asset, ServerCtlError>)
    ensures
        match r {
            Ok(a) => picked_asset(*m, arch@) == Ok::<Asset, ServerCtlError>(*a),
            Err(e) => picked_asset(*m, arch@) is Err && e == ServerCtlError::Manifest(e->Manifest_0)
                && e->Manifest_0@ == missing_asset_message(arch@),
        },
{
    let v = to_chars(arch);
    if chars_eq(&v, &to_chars("aarch64")) {
        match &m.assets.darwin_aarch64 {
            Some(a) => Ok(a),
            None => Err(ServerCtlError::Manifest(String::from_str("missing darwin-aarch64 in manifest"))),
        }
    } else if chars_eq(&v, &to_chars("x86_64")) {
        match &m.assets.darwin_x86_64 {
            Some(a) => Ok(a),
            None => Err(ServerCtlError::Manifest(String::from_str("missing darwin-x86_64 in manifest"))),
        }
    } else {
        Err(ServerCtlError::Manifest(String::from_str("Unsupported arch: ").concat(arch)))
    }
}

/// The `launchctl` domain of the user `uid`.
pub open spec fn gui_domain_of(uid: u32) -> Seq<char> {
    "gui/"@ + decimal(uid as nat)
}

/// The `launchctl` domain of the user `uid` (`gui/{uid}`).
pub fn gui_domain(uid: u32) -> (r: String)
    ensures
        r@ == gui_domain_of(uid),
{
    String::from_str("gui/").concat(decimal_string(uid as u64).as_str())
}

/// The server's service target for user `uid`.
pub open spec fn service_target_of(uid: u32) -> Seq<char> {
    gui_domain_of(uid) + "/"@ + PLIST_LABEL@
}

fn service_target(uid: u32) -> (r: String)
    ensures
        r@ == service_target_of(uid),
{
    gui_domain(uid).concat("/").concat(PLIST_LABEL)
}

/// The `launchctl` arguments that stop the server of user `uid`; the
/// outcome of running them is [`launchctl_result`].
pub fn stop(uid: u32) -> (args: Vec<String>)
    ensures
        args@.len() == 2,
        args@[0]@ == "bootout"@,
        args@[1]@ == service_target_of(uid),
{
    let mut args: Vec<String> = Vec::new();
    args.push(String::from_str("bootout"));
    args.push(service_target(uid));
    args
}

/// The `launchctl` arguments that ask for the status of the server of
/// user `uid`; they fail when it is not loaded. The outcome of running
/// them is [`launchctl_result`].
pub fn status(uid: u32) -> (args: Vec<String>)
    ensures
        args@.len() == 2,
        args@[0]@ == "print"@,
        args@[1]@ == service_target_of(uid),
{
    let mut args: Vec<String> = Vec::new();
    args.push(String::from_str("print"));
    args.push(service_target(uid));
    args
}

/// What running `launchctl` came to.
#[derive(Debug)]
pub enum LaunchctlRun {
    /// It could not be started; the I/O error's message.
    NotStarted { error: String },
    /// It ran and exited, successfully or not, writing `stderr`.
    Exited { success: bool, stderr: Vec<u8> },
}

/// The text `String::from_utf8_lossy` makes of `bytes`.
pub uninterp spec fn utf8_lossy_of(bytes: Seq<u8>) -> Seq<char>;

/// Calls `String::from_utf8_lossy`. Claims only that the result is the
/// named decoding, which depends on the bytes alone.
#[verifier::external_body]
fn utf8_lossy(bytes: &[u8]) -> (r: String)
    ensures
        r@ == utf8_lossy_of(bytes@),
{
    String::from_utf8_lossy(bytes).into_owned()
}

/// The outcome of a `launchctl` run (for [`stop`], [`status`] and
/// [`start_commands`]): success only when it ran and exited successfully;
/// an unsuccessful exit fails with its error output, decoded lossily; a
/// run that could not start is an I/O error.
pub fn launchctl_result(run: &LaunchctlRun) -> (r: Result<(), ServerCtlError>)
    ensures
        match *run {
            LaunchctlRun::NotStarted { error } => r matches Err(ServerCtlError::Io(m)) && m == error,
            LaunchctlRun::Exited { success, stderr } => if success {
                r is Ok
            } else {
                r matches Err(ServerCtlError::Launchctl(m)) && m@ == utf8_lossy_of(stderr@)
            },
        },
{
    match run {
        LaunchctlRun::NotStarted { error } => Err(ServerCtlError::Io(error.clone())),
        LaunchctlRun::Exited { success, stderr } => {
            if *success {
                Ok(())
            } else {
                Err(ServerCtlError::Launchctl(utf8_lossy(stderr.as_slice())))
            }
        },
    }
}

/// The two `launchctl` invocations that start the server of user `uid`
/// from its launch agent file `plist`: load it, then (re)start it.
pub fn start_commands(uid: u32, plist: &str) -> (r: (Vec<String>, Vec<String>))
    ensures
        r.0@.len() == 3,
        r.0@[0]@ == "bootstrap"@,
        r.0@[1]@ == gui_domain_of(uid),
        r.0@[2]@ == plist@,
        r.1@.len() == 3,
        r.1@[0]@ == "kickstart"@,
        r.1@[1]@ == "-k"@,
        r.1@[2]@ == service_target_of(uid),
{
    let mut load: Vec<String> = Vec::new();
    load.push(String::from_str("bootstrap"));
    load.push(gui_domain(uid));
    load.push(String::from_str(plist));
    let mut kick: Vec<String> = Vec::new();
    kick.push(String::from_str("kickstart"));
    kick.push(String::from_str("-k"));
    kick.push(service_target(uid));
    (load, kick)
}

/// The launch agent that runs the server binary at `bin`, kept alive.
pub open spec fn plist_text_of(bin: Seq<char>) -> Seq<char> {
    PLIST_HEAD@ + bin + PLIST_TAIL@
}

/// The part of the launch agent before the binary path.
pub const PLIST_HEAD: &'static str = "<?xml version=\"1.0\" encoding=\"UTF-8\"?>\n            <!DOCTYPE plist PUBLIC \"-//Apple//DTD PLIST 1.0//EN\"\n                \"http://www.apple.com/DTDs/PropertyList-1.0.dtd\">\n                <plist version=\"1.0\"><dict>\n                <key>Label</key><string>com.samwahome.skopio.server</string>\n                <key>ProgramArguments</key>\n                <array>\n                <string>";

/// The part of the launch agent after the binary path.
pub const PLIST_TAIL: &'static str = "</string>\n                </array>\n                <key>RunAtLoad</key><true/>\n                <key>KeepAlive</key><true/>\n                <key>ProcessType</key><string>Background</string>\n                </dict></plist>\n            ";

/// The launch agent file contents for the server binary at `bin`.
pub fn plist_text(bin: &str) -> (r: String)
    ensures
        r@ == plist_text_of(bin@),
{
    String::from_str(PLIST_HEAD).concat(bin).concat(PLIST_TAIL)
}

/// Where a download stands.
pub struct DownloadProgress {
    /// Bytes received so far.
    pub received: u64,
    /// The percentage last reported.
    pub last_emit: u8,
}

/// The percentage of `total` that `received` is, as the download reports
/// it: a hundred times the received bytes (saturating), divided by the
/// total, kept in a byte.
pub open spec fn percent_of(received: u64, total: Option<u64>) -> Option<u8> {
    match total {
        Some(t) => Some((((if received * 100 > u64::MAX { u64::MAX as int } else { received * 100 }) / (t as int)) as u8)),
        None => None,
    }
}

/// Whether a chunk of `chunk_len` bytes can be counted.
pub open spec fn chunk_ok(p: DownloadProgress, chunk_len: u64, total: Option<u64>) -> bool {
    p.received + chunk_len <= u64::MAX && total != Some(0u64)
}

impl DownloadProgress {
    /// Nothing received yet.
    pub fn new() -> (p: DownloadProgress)
        ensures
            p.received == 0,
            p.last_emit == 0,
    {
        DownloadProgress { received: 0, last_emit: 0 }
    }

    /// Counts a received chunk; returns the status to show when the
    /// percentage (0 when the total is unknown) differs from the last one
    /// shown.
    pub fn on_chunk(&mut self, chunk_len: u64, total: Option<u64>) -> (r: Option<ServerStatus>)
        requires
            chunk_ok(*old(self), chunk_len, total),
        ensures
            final(self).received == old(self).received + chunk_len,
            ({
                let pct = percent_of(final(self).received, total);
                let shown = match pct {
                    Some(x) => x,
                    None => 0u8,
                };
                &&& shown != old(self).last_emit ==> r == Some(
                    ServerStatus::Downloading { received: final(self).received, total, percent: pct },
                ) && final(self).last_emit == shown
                &&& shown == old(self).last_emit ==> r is None && final(self).last_emit
                    == old(self).last_emit
            }),
    {
        self.received = self.received + chunk_len;
        let percent = match total {
            Some(t) => {
                let scaled: u64 = if self.received <= u64::MAX / 100 {
                    self.received * 100
                } else {
                    u64::MAX
                };
                Some((scaled / t) as u8)
            },
            None => None,
        };
        let shown = match percent {
            Some(x) => x,
            None => 0,
        };
        if shown != self.last_emit {
            self.last_emit = shown;
            Some(ServerStatus::Downloading { received: self.received, total, percent })
        } else {
            None
        }
    }
}

/// The SHA-256 digest of `data`.
pub uninterp spec fn sha256_of(data: Seq<u8>) -> Seq<u8>;

/// Calls `sha2::Sha256::digest`. Claims the result is the named digest
/// of `data` and is 32 bytes long (the output size of SHA-256).
#[verifier::external_body]
fn sha256_digest(data: &[u8]) -> (r: Vec<u8>)
    ensures
        r@ == sha256_of(data@),
        r@.len() == 32,
{
    <sha2::Sha256 as sha2::Digest>::digest(data).to_vec()
}

/// A lowercase hexadecimal digit.
pub open spec fn hex_digit(d: nat) -> char {
    if d < 10 {
        crate::duration::digit_char(d)
    } else if d == 10 {
        'a'
    } else if d == 11 {
        'b'
    } else if d == 12 {
        'c'
    } else if d == 13 {
        'd'
    } else if d == 14 {
        'e'
    } else {
        'f'
    }
}

/// Bytes in lowercase hexadecimal, two digits each.
pub open spec fn hex_lower(bytes: Seq<u8>) -> Seq<char>
    decreases bytes.len(),
{
    if bytes.len() == 0 {
        Seq::empty()
    } else {
        hex_lower(bytes.drop_last()) + seq![
            hex_digit((bytes.last() / 16) as nat),
            hex_digit((bytes.last() % 16) as nat),
        ]
    }
}

fn hex_char(d: u8) -> (c: char)
    requires
        d < 16,
    ensures
        c == hex_digit(d as nat),
{
    if d < 10 {
        if d == 0 { '0' }
        else if d == 1 { '1' }
        else if d == 2 { '2' }
        else if d == 3 { '3' }
        else if d == 4 { '4' }
        else if d == 5 { '5' }
        else if d == 6 { '6' }
        else if d == 7 { '7' }
        else if d == 8 { '8' }
        else { '9' }
    } else if d == 10 { 'a' }
    else if d == 11 { 'b' }
    else if d == 12 { 'c' }
    else if d == 13 { 'd' }
    else if d == 14 { 'e' }
    else { 'f' }
}

/// `bytes` in lowercase hexadecimal.
pub fn to_hex_lower(bytes: &[u8]) -> (r: String)
    ensures
        r@ == hex_lower(bytes@),
{
    let mut out: Vec<char> = Vec::new();
    let mut i: usize = 0;
    while i < bytes.len()
        invariant
            i <= bytes@.len(),
            out@ == hex_lower(bytes@.take(i as int)),
        decreases bytes@.len() - i,
    {
        let b = bytes[i];
        out.push(hex_char(b / 16));
        out.push(hex_char(b % 16));
        assert(bytes@.take(i + 1).drop_last() =~= bytes@.take(i as int));
        i += 1;
    }
    assert(bytes@.take(bytes@.len() as int) =~= bytes@);
    from_chars(&out)
}

/// The SHA-256 digest of `data` in lowercase hexadecimal.
pub fn compute_sha256(data: &[u8]) -> (r: String)
    ensures
        r@ == hex_lower(sha256_of(data@)),
        r@.len() == 64,
{
    let d = sha256_digest(data);
    let r = to_hex_lower(d.as_slice());
    proof {
        lemma_hex_len(d@);
    }
    r
}

proof fn lemma_hex_len(b: Seq<u8>)
    ensures
        hex_lower(b).len() == 2 * b.len(),
    decreases b.len(),
{
    if b.len() > 0 {
        lemma_hex_len(b.drop_last());
    }
}

fn lower_char(c: char) -> (r: char)
    ensures
        r == ascii_lower(c),
{
    if 'A' <= c && c <= 'Z' {
        let b: u8 = (c as u32 + 32) as u8;
        b as char
    } else {
        c
    }
}

/// `s` with ASCII uppercase letters made lowercase.
pub fn to_ascii_lowercase(s: &str) -> (r: String)
    ensures
        r@ == ascii_lower_text(s@),
{
    let v = to_chars(s);
    let mut out: Vec<char> = Vec::new();
    let mut i: usize = 0;
    while i < v.len()
        invariant
            i <= v@.len(),
            v@ == s@,
            out@ == ascii_lower_text(v@.take(i as int)),
        decreases v@.len() - i,
    {
        out.push(lower_char(v[i]));
        assert(ascii_lower_text(v@.take(i + 1)) =~= ascii_lower_text(v@.take(i as int)).push(
            ascii_lower(v@[i as int]),
        ));
        i += 1;
    }
    assert(v@.take(v@.len() as int) =~= v@);
    from_chars(&out)
}

/// Whether the downloaded data has the published digest: the computed
/// digest equals the published one with ASCII letters lowercased.
pub fn digest_matches(data: &[u8], published: &str) -> (r: bool)
    ensures
        r == (hex_lower(sha256_of(data@)) == ascii_lower_text(published@)),
{
    let processed = compute_sha256(data);
    let fetched = to_ascii_lowercase(published);
    let a = to_chars(processed.as_str());
    let b = to_chars(fetched.as_str());
    chars_eq(&a, &b)
}

/// Whether two texts are equal up to ASCII letter case.
pub fn eq_ignore_ascii_case(a: &str, b: &str) -> (r: bool)
    ensures
        r == (ascii_lower_text(a@) == ascii_lower_text(b@)),
{
    let x = to_ascii_lowercase(a);
    let y = to_ascii_lowercase(b);
    chars_eq(&to_chars(x.as_str()), &to_chars(y.as_str()))
}

/// Whether a health report says the server is up.
pub fn health_ok(status: &str) -> (r: bool)
    ensures
        r == (ascii_lower_text(status@) == ascii_lower_text("ok"@)),
{
    eq_ignore_ascii_case(status, "ok")
}

/// The next pause between readiness checks, in milliseconds: twice the
/// last one, at most a second.
pub fn next_retry_delay_ms(delay_ms: u64) -> (r: u64)
    ensures
        r == (if delay_ms * 2 <= 1000 { delay_ms * 2 } else { 1000 }),
{
    if delay_ms <= 500 {
        delay_ms * 2
    } else {
        1000
    }
}

/// What readiness asks for once the update check is done.
#[derive(Debug)]
pub enum ReadyPlan {
    /// Wait for the server to report healthy, starting it first when
    /// `start_first` is set.
    Wait { start_first: bool },
    /// Report the status and give up.
    Fail { status: ServerStatus },
}

/// After the update check: a fresh install was already started, a kept
/// server is started only when it was not running, and a failed check
/// is shown as an error status carrying its message.
pub fn ready_plan(update: &Result<bool, ServerCtlError>, is_running: bool) -> (r: ReadyPlan)
    ensures
        match update {
            Ok(true) => r == ReadyPlan::Wait { start_first: false },
            Ok(false) => r == ReadyPlan::Wait { start_first: !is_running },
            Err(e) => r matches ReadyPlan::Fail { status: ServerStatus::Error { message } }
                && message@ == error_message_of(*e),
        },
{
    match update {
        Ok(true) => ReadyPlan::Wait { start_first: false },
        Ok(false) => ReadyPlan::Wait { start_first: !is_running },
        Err(e) => ReadyPlan::Fail { status: ServerStatus::Error { message: e.message() } },
    }
}

/// What the `zip` crate reports of an archive: its number of entries, or
/// the message of the error opening it.
pub uninterp spec fn zip_entry_count(archive: Seq<u8>) -> Result<usize, Seq<char>>;

/// What the `zip` crate reports of entry `i`: its name and whether it is
/// a regular file, or the message of the error reading it.
pub uninterp spec fn zip_entry_info(archive: Seq<u8>, i: usize) -> Result<(Seq<char>, bool), Seq<char>>;

/// What the `zip` crate extracts from entry `i`: its contents, or the
/// error (from the archive, or from reading the entry).
pub uninterp spec fn zip_entry_data(archive: Seq<u8>, i: usize) -> Result<Seq<u8>, ZipReadError>;

/// An error of the `zip` crate, or of reading an entry's contents.
#[derive(Debug, Clone, PartialEq, Eq)]
pub enum ZipReadError {
    Zip(String),
    Io(String),
}

/// Calls `zip::ZipArchive::new` on the archive bytes and `len()`.
/// Claims: the result is the named count, or the error's message.
#[verifier::external_body]
fn zip_len(archive: &[u8]) -> (r: Result<usize, String>)
    ensures
        match r {
            Ok(n) => zip_entry_count(archive@) == Ok::<usize, Seq<char>>(n),
            Err(m) => zip_entry_count(archive@) == Err::<usize, Seq<char>>(m@),
        },
{
    zip::ZipArchive::new(std::io::Cursor::new(archive)).map(|a| a.len()).map_err(|e| e.to_string())
}

/// Calls `zip::ZipArchive::by_index(i)` on the opened archive, and the
/// entry's `name()` and `is_file()`. Claims: the result is the named
/// entry information, or the error's message.
#[verifier::external_body]
fn zip_entry(archive: &[u8], i: usize) -> (r: Result<(String, bool), String>)
    ensures
        match r {
            Ok(e) => zip_entry_info(archive@, i) == Ok::<(Seq<char>, bool), Seq<char>>((e.0@, e.1)),
            Err(m) => zip_entry_info(archive@, i) == Err::<(Seq<char>, bool), Seq<char>>(m@),
        },
{
    let mut a = zip::ZipArchive::new(std::io::Cursor::new(archive)).map_err(|e| e.to_string())?;
    let f = a.by_index(i).map_err(|e| e.to_string())?;
    Ok((f.name().to_string(), f.is_file()))
}

/// Calls `zip::ZipArchive::by_index(i)` and copies the entry out with
/// `std::io::copy`. Claims: the result is the named contents or error.
#[verifier::external_body]
fn zip_extract(archive: &[u8], i: usize) -> (r: Result<Vec<u8>, ZipReadError>)
    ensures
        match r {
            Ok(d) => zip_entry_data(archive@, i) == Ok::<Seq<u8>, ZipReadError>(d@),
            Err(e) => zip_entry_data(archive@, i) == Err::<Seq<u8>, ZipReadError>(e),
        },
{
    let mut a = zip::ZipArchive::new(std::io::Cursor::new(archive))
        .map_err(|e| ZipReadError::Zip(e.to_string()))?;
    let mut f = a.by_index(i).map_err(|e| ZipReadError::Zip(e.to_string()))?;
    let mut out: Vec<u8> = Vec::new();
    std::io::copy(&mut f, &mut out).map_err(|e| ZipReadError::Io(e.to_string()))?;
    Ok(out)
}

/// Whether an entry name ends with the binary's name.
pub open spec fn ends_with_bin(name: Seq<char>) -> bool {
    name.len() >= BIN_NAME@.len() && name.skip(name.len() - BIN_NAME@.len()) == BIN_NAME@
}

/// Whether an entry's file name is the binary's name.
pub open spec fn named_bin(name: Seq<char>) -> bool {
    file_name_of(name) == Some(BIN_NAME@)
}

/// The scan for the binary from entry `i` on, with `pick` the first file
/// entry so far whose file name is the binary's: a file entry whose name
/// ends with the binary's name stops the scan; an unreadable entry is an
/// error.
pub open spec fn scan_entries(archive: Seq<u8>, i: usize, n: usize, pick: Option<usize>) -> Result<Option<usize>, Seq<char>>
    decreases n - i,
{
    if i >= n {
        Ok(pick)
    } else {
        match zip_entry_info(archive, i) {
            Err(m) => Err(m),
            Ok((name, is_file)) => if is_file && ends_with_bin(name) {
                Ok(Some(i))
            } else {
                scan_entries(
                    archive,
                    (i + 1) as usize,
                    n,
                    if pick is None && is_file && named_bin(name) { Some(i) } else { pick },
                )
            },
        }
    }
}

/// The entry holding the server binary (see [`scan_entries`]); an
/// archive of a single file entry holds it in that entry.
pub open spec fn binary_entry(archive: Seq<u8>) -> Result<Option<usize>, Seq<char>> {
    match zip_entry_count(archive) {
        Err(m) => Err(m),
        Ok(n) => match scan_entries(archive, 0, n, None) {
            Err(m) => Err(m),
            Ok(Some(i)) => Ok(Some(i)),
            Ok(None) => if n == 1 {
                match zip_entry_info(archive, 0) {
                    Err(m) => Err(m),
                    Ok((_, is_file)) => if is_file { Ok(Some(0usize)) } else { Ok(None) },
                }
            } else {
                Ok(None)
            },
        },
    }
}

fn ends_with_bin_name(name: &str) -> (r: bool)
    ensures
        r == ends_with_bin(name@),
{
    let v = to_chars(name);
    let b = to_chars(BIN_NAME);
    if v.len() < b.len() {
        return false;
    }
    let tail = crate::text::substring(&v, v.len() - b.len(), v.len());
    assert(tail@ =~= name@.skip(name@.len() - BIN_NAME@.len()));
    chars_eq(&to_chars(tail.as_str()), &b)
}

fn names_bin(name: &str) -> (r: bool)
    ensures
        r == named_bin(name@),
{
    match crate::paths::file_name(name) {
        Some(n) => chars_eq(&to_chars(n.as_str()), &to_chars(BIN_NAME)),
        None => false,
    }
}

/// Finds the archive entry holding the server binary.
pub fn find_binary_entry(archive: &[u8]) -> (r: Result<Option<usize>, ServerCtlError>)
    ensures
        match r {
            Ok(p) => binary_entry(archive@) == Ok::<Option<usize>, Seq<char>>(p),
            Err(e) => e is Zip && binary_entry(archive@) == Err::<Option<usize>, Seq<char>>(
                e->Zip_0@,
            ),
        },
{
    let n = match zip_len(archive) {
        Ok(n) => n,
        Err(m) => return Err(ServerCtlError::Zip(m)),
    };
    let mut pick: Option<usize> = None;
    let mut i: usize = 0;
    while i < n
        invariant
            i <= n,
            zip_entry_count(archive@) == Ok::<usize, Seq<char>>(n),
            scan_entries(archive@, 0, n, None) == scan_entries(archive@, i, n, pick),
        decreases n - i,
    {
        let (name, is_file) = match zip_entry(archive, i) {
            Ok(e) => e,
            Err(m) => return Err(ServerCtlError::Zip(m)),
        };
        if is_file {
            if ends_with_bin_name(name.as_str()) {
                return Ok(Some(i));
            }
            if pick.is_none() && names_bin(name.as_str()) {
                pick = Some(i);
            }
        }
        i += 1;
    }
    if pick.is_none() && n == 1 {
        match zip_entry(archive, 0) {
            Ok((_, is_file)) => {
                if is_file {
                    pick = Some(0);
                }
            },
            Err(m) => return Err(ServerCtlError::Zip(m)),
        }
    }
    Ok(pick)
}

/// The server binary taken out of a release archive.
pub open spec fn unzipped_binary(archive: Seq<u8>) -> Result<Seq<u8>, ServerCtlError> {
    match binary_entry(archive) {
        Err(m) => Err(ServerCtlError::Zip(arbitrary())),
        Ok(None) => Err(ServerCtlError::Manifest(arbitrary())),
        Ok(Some(i)) => match zip_entry_data(archive, i) {
            Ok(d) => Ok(d),
            Err(ZipReadError::Zip(_)) => Err(ServerCtlError::Zip(arbitrary())),
            Err(ZipReadError::Io(_)) => Err(ServerCtlError::Io(arbitrary())),
        },
    }
}

/// Takes the server binary out of a release archive: the entry chosen by
/// [`binary_entry`]; an archive without one is a manifest error.
pub fn unzip_binary(archive: &[u8]) -> (r: Result<Vec<u8>, ServerCtlError>)
    ensures
        match r {
            Ok(d) => unzipped_binary(archive@) == Ok::<Seq<u8>, ServerCtlError>(d@),
            Err(e) => match binary_entry(archive@) {
                Err(m) => e == ServerCtlError::Zip(e->Zip_0) && e->Zip_0@ == m,
                Ok(None) => e == ServerCtlError::Manifest(e->Manifest_0) && e->Manifest_0@
                    == "Zip does not contain expected binary"@,
                Ok(Some(i)) => match zip_entry_data(archive@, i) {
                    Ok(_) => false,
                    Err(ZipReadError::Zip(m)) => e == ServerCtlError::Zip(m),
                    Err(ZipReadError::Io(m)) => e == ServerCtlError::Io(m),
                },
            },
        },
{
    let idx = match find_binary_entry(archive) {
        Err(e) => return Err(e),
        Ok(None) => return Err(
            ServerCtlError::Manifest(String::from_str("Zip does not contain expected binary")),
        ),
        Ok(Some(i)) => i,
    };
    match zip_extract(archive, idx) {
        Ok(d) => Ok(d),
        Err(ZipReadError::Zip(m)) => Err(ServerCtlError::Zip(m)),
        Err(ZipReadError::Io(m)) => Err(ServerCtlError::Io(m)),
    }
}

/// What `semver` makes of two versions: whether the first is newer than
/// the second, or the message of the first parse error.
pub uninterp spec fn semver_newer(latest: Seq<char>, current: Seq<char>) -> Result<bool, Seq<char>>;

/// Calls `semver::Version::parse` on both texts and compares the versions
/// with `>`. Claims: the result is the named comparison or parse error.
#[verifier::external_body]
fn version_newer(latest: &str, current: &str) -> (r: Result<bool, String>)
    ensures
        match r {
            Ok(b) => semver_newer(latest@, current@) == Ok::<bool, Seq<char>>(b),
            Err(m) => semver_newer(latest@, current@) == Err::<bool, Seq<char>>(m@),
        },
{
    let l = semver::Version::parse(latest).map_err(|e| e.to_string())?;
    let c = semver::Version::parse(current).map_err(|e| e.to_string())?;
    Ok(l > c)
}

/// What to do after reading the release manifest.
#[derive(Debug, PartialEq, Eq, Structural)]
pub enum UpdatePlan {
    /// Stop the server, install the release and start it again.
    Install,
    /// Keep the installed server; `record_version` asks to write the
    /// manifest's version as the installed one.
    Keep { record_version: bool },
}

/// The plan for a manifest of version `latest` when `installed` is the
/// recorded version (none recorded reads as empty, which does not parse).
pub open spec fn update_plan_of(latest: Seq<char>, installed: Option<Seq<char>>) -> Result<UpdatePlan, Seq<char>> {
    let current = match installed {
        Some(v) => v,
        None => Seq::empty(),
    };
    match semver_newer(latest, current) {
        Err(m) => Err(m),
        Ok(true) => Ok(UpdatePlan::Install),
        Ok(false) => Ok(UpdatePlan::Keep { record_version: installed != Some(latest) }),
    }
}

/// Decides whether to install the release of the manifest: first the
/// asset for `arch` must exist, then the release must be newer than the
/// installed version.
pub fn check_update<'a>(manifest: &'a Manifest, arch: &str, installed: Option<String>) -> (r: Result<(UpdatePlan, &'a Asset), ServerCtlError>)
    ensures
        match pick_asset_result(*manifest, arch@) {
            Err(_) => r is Err && r->Err_0 is Manifest && r->Err_0->Manifest_0@ == missing_asset_message(arch@),
            Ok(a) => match update_plan_of(manifest.version@, installed.deep_view()) {
                Err(m) => r is Err && r->Err_0 == ServerCtlError::Semver(r->Err_0->Semver_0)
                    && r->Err_0->Semver_0@ == m,
                Ok(p) => r is Ok && r->Ok_0.0 == p && *r->Ok_0.1 == a,
            },
        },
{
    let asset = match pick_asset(manifest, arch) {
        Ok(a) => a,
        Err(e) => return Err(e),
    };
    let empty = String::new();
    let current = match &installed {
        Some(v) => v.as_str(),
        None => empty.as_str(),
    };
    match version_newer(manifest.version.as_str(), current) {
        Err(m) => Err(ServerCtlError::Semver(m)),
        Ok(true) => Ok((UpdatePlan::Install, asset)),
        Ok(false) => {
            let same = match &installed {
                Some(v) => chars_eq(&to_chars(v.as_str()), &to_chars(manifest.version.as_str())),
                None => false,
            };
            Ok((UpdatePlan::Keep { record_version: !same }, asset))
        },
    }
}

/// The asset for `arch`, or that there is none.
/// The asset installed on a machine is the one built for its architecture:
/// on "x86_64" exactly the manifest's darwin-x86_64 asset, on "aarch64"
/// exactly its darwin-aarch64 asset, whatever the manifest holds for the
/// other architecture; any other architecture gets none.
pub proof fn lemma_asset_for_architecture(m: Manifest, a: Asset, other: Option<Asset>)
    ensures
        (picked_asset(m, "x86_64"@) == Ok::<Asset, ServerCtlError>(a)) <==> (m.assets.darwin_x86_64 == Some(a)),
        (picked_asset(m, "x86_64"@) is Ok) <==> (m.assets.darwin_x86_64 is Some),
        (picked_asset(m, "aarch64"@) == Ok::<Asset, ServerCtlError>(a)) <==> (m.assets.darwin_aarch64 == Some(a)),
        (picked_asset(m, "aarch64"@) is Ok) <==> (m.assets.darwin_aarch64 is Some),
        picked_asset(
            Manifest {
                version: m.version,
                released_at: m.released_at,
                assets: ManifestAssets { darwin_aarch64: other, darwin_x86_64: m.assets.darwin_x86_64 },
            },
            "x86_64"@,
        ) == picked_asset(m, "x86_64"@),
        picked_asset(
            Manifest {
                version: m.version,
                released_at: m.released_at,
                assets: ManifestAssets { darwin_aarch64: m.assets.darwin_aarch64, darwin_x86_64: other },
            },
            "aarch64"@,
        ) == picked_asset(m, "aarch64"@),
        forall|arch: Seq<char>| arch != "x86_64"@ && arch != "aarch64"@ ==> (#[trigger] picked_asset(m, arch)) is Err,
{
    reveal_strlit("x86_64");
    reveal_strlit("aarch64");
    assert("x86_64"@ != "aarch64"@) by {
        assert("x86_64"@[0] != "aarch64"@[0]);
    }
}

pub open spec fn pick_asset_result(m: Manifest, arch: Seq<char>) -> Result<Asset, ()> {
    match picked_asset(m, arch) {
        Ok(a) => Ok(a),
        Err(_) => Err(()),
    }
}

} // verus!
