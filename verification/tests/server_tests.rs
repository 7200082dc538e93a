use skopio::server::{
    launchctl_result, LaunchctlRun,
    check_update, compute_sha256, digest_matches, eq_ignore_ascii_case, find_binary_entry,
    gui_domain, health_ok, next_retry_delay_ms, pick_asset, plist_text, ready_plan, start_commands,
    status, stop, to_ascii_lowercase, to_hex_lower, unzip_binary, Asset, DownloadProgress,
    Manifest, ManifestAssets, ReadyPlan, ServerCtlError, ServerStatus, UpdatePlan, BIN_NAME,
    PLIST_LABEL,
};
use std::io::Write;
use zip::write::SimpleFileOptions;

const ABC_SHA256: &str = "ba7816bf8f01cfea414140de5dae2223b00361a396177a9cb410ff61f20015ad";

fn asset(url: &str) -> Asset {
    Asset { url: url.to_string(), sha256: "00".to_string(), size: None }
}

fn manifest(version: &str, arm: bool, intel: bool) -> Manifest {
    Manifest {
        version: version.to_string(),
        released_at: None,
        assets: ManifestAssets {
            darwin_aarch64: if arm { Some(asset("arm")) } else { None },
            darwin_x86_64: if intel { Some(asset("intel")) } else { None },
        },
    }
}

fn zip_of(dirs: &[&str], files: &[(&str, &[u8])]) -> Vec<u8> {
    let mut w = zip::ZipWriter::new(std::io::Cursor::new(Vec::new()));
    for d in dirs {
        w.add_directory(*d, SimpleFileOptions::default()).unwrap();
    }
    for (name, data) in files {
        w.start_file(*name, SimpleFileOptions::default()).unwrap();
        w.write_all(data).unwrap();
    }
    w.finish().unwrap().into_inner()
}

#[test]
fn error_messages() {
    assert_eq!(ServerCtlError::DigestMismatch.message(), "Digest mismatch");
    assert_eq!(ServerCtlError::Io("gone".to_string()).message(), "IO error: gone");
    assert_eq!(ServerCtlError::Launchctl("x".to_string()).message(), "Launchctl failed: x");
    assert_eq!(ServerCtlError::Semver("bad".to_string()).message(), "Semver error: bad");
}

#[test]
fn assets_by_architecture() {
    let m = manifest("1.0.0", true, false);
    assert_eq!(pick_asset(&m, "aarch64").unwrap().url, "arm");
    match pick_asset(&m, "x86_64") {
        Err(ServerCtlError::Manifest(msg)) => assert_eq!(msg, "missing darwin-x86_64 in manifest"),
        other => panic!("unexpected {:?}", other),
    }
    match pick_asset(&manifest("1.0.0", false, true), "aarch64") {
        Err(ServerCtlError::Manifest(msg)) => assert_eq!(msg, "missing darwin-aarch64 in manifest"),
        other => panic!("unexpected {:?}", other),
    }
    match pick_asset(&m, "riscv64") {
        Err(ServerCtlError::Manifest(msg)) => assert_eq!(msg, "Unsupported arch: riscv64"),
        other => panic!("unexpected {:?}", other),
    }
}

#[test]
fn launchctl_arguments() {
    assert_eq!(gui_domain(501), "gui/501");
    let target = format!("gui/501/{}", PLIST_LABEL);
    assert_eq!(stop(501), vec!["bootout".to_string(), target.clone()]);
    assert_eq!(status(501), vec!["print".to_string(), target.clone()]);
    let (load, kick) = start_commands(501, "/Users/me/Library/LaunchAgents/x.plist");
    assert_eq!(load, vec!["bootstrap", "gui/501", "/Users/me/Library/LaunchAgents/x.plist"]);
    assert_eq!(kick, vec!["kickstart".to_string(), "-k".to_string(), target]);
}

#[test]
fn launch_agent_file() {
    let p = plist_text("/srv/skopio-server");
    assert!(p.contains("<key>Label</key><string>com.samwahome.skopio.server</string>"));
    assert!(p.contains("<string>/srv/skopio-server</string>"));
    assert!(p.starts_with("<?xml version=\"1.0\" encoding=\"UTF-8\"?>"));
    assert!(p.contains("<key>KeepAlive</key><true/>"));
}

#[test]
fn download_progress_reports_changes_only() {
    let mut p = DownloadProgress::new();
    assert!(p.on_chunk(5, Some(1000)).is_none());
    match p.on_chunk(5, Some(1000)) {
        Some(ServerStatus::Downloading { received, total, percent }) => {
            assert_eq!((received, total, percent), (10, Some(1000), Some(1)));
        }
        other => panic!("unexpected {:?}", other),
    }
    assert!(p.on_chunk(1, Some(1000)).is_none());
    // an unknown total reads as 0%, which differs from the 1% last shown
    match p.on_chunk(989, None) {
        Some(ServerStatus::Downloading { received, total, percent }) => {
            assert_eq!((received, total, percent), (1000, None, None));
        }
        other => panic!("unexpected {:?}", other),
    }
    assert_eq!(p.last_emit, 0);
    match p.on_chunk(0, Some(1000)) {
        Some(ServerStatus::Downloading { percent, .. }) => assert_eq!(percent, Some(100)),
        other => panic!("unexpected {:?}", other),
    }
}

#[test]
fn digests() {
    assert_eq!(compute_sha256(b"abc"), ABC_SHA256);
    assert_eq!(to_hex_lower(&[0x00, 0x0f, 0xab, 0xff]), "000fabff");
    assert!(digest_matches(b"abc", &ABC_SHA256.to_uppercase()));
    assert!(!digest_matches(b"abd", ABC_SHA256));
    assert_eq!(to_ascii_lowercase("ABC-Ünï"), "abc-Ünï");
}

#[test]
fn health_reports() {
    assert!(health_ok("ok"));
    assert!(health_ok("OK"));
    assert!(!health_ok("okay"));
    assert!(eq_ignore_ascii_case("Skopio", "sKOPIO"));
    assert_eq!(next_retry_delay_ms(100), 200);
    assert_eq!(next_retry_delay_ms(500), 1000);
    assert_eq!(next_retry_delay_ms(800), 1000);
    assert_eq!(next_retry_delay_ms(u64::MAX), 1000);
}

#[test]
fn binary_entry_by_name() {
    let z = zip_of(&["bin/"], &[("README", b"r"), ("bin/skopio-server", b"BINARY"), ("other", b"o")]);
    assert_eq!(find_binary_entry(&z).unwrap(), Some(2));
    assert_eq!(unzip_binary(&z).unwrap(), b"BINARY".to_vec());
}

#[test]
fn single_file_archive_is_the_binary() {
    let z = zip_of(&[], &[("server", b"ONLY")]);
    assert_eq!(find_binary_entry(&z).unwrap(), Some(0));
    assert_eq!(unzip_binary(&z).unwrap(), b"ONLY".to_vec());
}

#[test]
fn archive_without_binary() {
    let z = zip_of(&[], &[("a", b"1"), ("b", b"2")]);
    assert_eq!(find_binary_entry(&z).unwrap(), None);
    match unzip_binary(&z) {
        Err(ServerCtlError::Manifest(m)) => assert_eq!(m, "Zip does not contain expected binary"),
        other => panic!("unexpected {:?}", other),
    }
    assert_eq!(BIN_NAME, "skopio-server");
}

#[test]
fn not_an_archive() {
    assert!(matches!(find_binary_entry(b"not a zip"), Err(ServerCtlError::Zip(_))));
    assert!(matches!(unzip_binary(b"not a zip"), Err(ServerCtlError::Zip(_))));
}

#[test]
fn update_decisions() {
    let m = manifest("1.2.0", true, true);
    let (plan, a) = check_update(&m, "aarch64", Some("1.1.0".to_string())).unwrap();
    assert_eq!(plan, UpdatePlan::Install);
    assert_eq!(a.url, "arm");
    let (plan, _) = check_update(&m, "x86_64", Some("1.2.0".to_string())).unwrap();
    assert_eq!(plan, UpdatePlan::Keep { record_version: false });
    let (plan, _) = check_update(&m, "x86_64", Some("1.3.0".to_string())).unwrap();
    assert_eq!(plan, UpdatePlan::Keep { record_version: true });
    assert!(matches!(check_update(&m, "x86_64", None), Err(ServerCtlError::Semver(_))));
    assert!(matches!(check_update(&m, "x86_64", Some("v1".to_string())), Err(ServerCtlError::Semver(_))));
    assert!(matches!(check_update(&m, "sparc", Some("1.0.0".to_string())), Err(ServerCtlError::Manifest(_))));
    let bad = manifest("latest", true, true);
    assert!(matches!(check_update(&bad, "aarch64", Some("1.0.0".to_string())), Err(ServerCtlError::Semver(_))));
}

#[test]
fn readiness_plans() {
    assert!(matches!(ready_plan(&Ok(true), false), ReadyPlan::Wait { start_first: false }));
    assert!(matches!(ready_plan(&Ok(false), false), ReadyPlan::Wait { start_first: true }));
    assert!(matches!(ready_plan(&Ok(false), true), ReadyPlan::Wait { start_first: false }));
    match ready_plan(&Err(ServerCtlError::DigestMismatch), true) {
        ReadyPlan::Fail { status: ServerStatus::Error { message } } => assert_eq!(message, "Digest mismatch"),
        other => panic!("unexpected {:?}", other),
    }
}

#[test]
fn launchctl_outcomes() {
    assert!(launchctl_result(&LaunchctlRun::Exited { success: true, stderr: b"noise".to_vec() }).is_ok());
    match launchctl_result(&LaunchctlRun::Exited { success: false, stderr: b"Boot-out failed: 3\xff".to_vec() }) {
        Err(ServerCtlError::Launchctl(m)) => assert_eq!(m, "Boot-out failed: 3\u{FFFD}"),
        other => panic!("unexpected {:?}", other),
    }
    match launchctl_result(&LaunchctlRun::NotStarted { error: "No such file".to_string() }) {
        Err(ServerCtlError::Io(m)) => assert_eq!(m, "No such file"),
        other => panic!("unexpected {:?}", other),
    }
}
