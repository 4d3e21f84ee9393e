use guardian_agent_windows::updater::{
    advance_update, default_repository, github_release_urls, is_msi_package, msi_package_file_name,
    msiexec_arguments, staged_executable_extension, status_is_success,
    InstallFailure, UpdateAction, UpdateEvent, UpdateState,
};

type State = UpdateState<String, Vec<u8>>;
type Action = UpdateAction<String, Vec<u8>>;
type Event = UpdateEvent<String, Vec<u8>>;

const ASSET_URL: &str = "https://github.com/Guardian-Parental-Controls/agent-windows/releases/download/v2.0.0/guardian-agent-x86_64-pc-windows-msvc.msi";

fn offer(version: Option<&str>, download: Option<&str>, checksum: Option<&str>) -> Event {
    UpdateEvent::Offered {
        target_version: version.map(|s| s.to_string()),
        download_url: download.map(|s| s.to_string()),
        checksum_url: checksum.map(|s| s.to_string()),
    }
}

fn finished_with(action: &Action) -> Option<Result<(), String>> {
    match action {
        UpdateAction::Finish { outcome } => Some(outcome.clone()),
        _ => None,
    }
}

/// Runs the offer up to the first download request, with explicit URLs.
fn to_asset_fetch(download: &str, checksum: &str) -> State {
    let (s, a) = advance_update(UpdateState::Idle, offer(Some("v1.4.0"), Some(download), Some(checksum)));
    assert!(matches!(a, UpdateAction::CheckReleaseVersion { ref version } if version == "v1.4.0"));
    let (s, a) = advance_update(s, UpdateEvent::ReleaseVersionChecked { valid: true });
    assert!(matches!(a, UpdateAction::PrepareClient { timeout_secs: 60 }));
    let (s, a) = advance_update(s, UpdateEvent::ClientPrepared { result: Ok(()) });
    match a {
        UpdateAction::Fetch { url, label } => {
            assert_eq!(url, download);
            assert_eq!(label, "release asset");
        }
        _ => panic!("expected the asset download"),
    }
    s
}

fn ok_response() -> Event {
    UpdateEvent::Responded { status_code: 200, status_text: "200 OK".to_string() }
}

/// Answers the pending request with 200 and hands over `body`.
fn deliver(s: State, body: Vec<u8>, label: &str) -> (State, Action) {
    let (s, a) = advance_update(s, ok_response());
    match a {
        UpdateAction::ReadBody { label: l } => assert_eq!(l, label),
        _ => panic!("expected a body read"),
    }
    advance_update(s, UpdateEvent::BodyRead { result: Ok(body) })
}

fn to_verification(download: &str, asset: Vec<u8>) -> State {
    let s = to_asset_fetch(download, "https://example.org/a.sha256");
    let (s, a) = deliver(s, asset.clone(), "release asset");
    match a {
        UpdateAction::Fetch { url, label } => {
            assert_eq!(url, "https://example.org/a.sha256");
            assert_eq!(label, "release checksum");
        }
        _ => panic!("expected the checksum download"),
    }
    let (s, a) = deliver(s, b"0123abcd  asset".to_vec(), "release checksum");
    match a {
        UpdateAction::VerifyAsset { asset: a, checksum_text } => {
            assert_eq!(a, asset);
            assert_eq!(checksum_text, "0123abcd  asset");
        }
        _ => panic!("expected verification"),
    }
    s
}

#[test]
fn missing_target_version_is_refused() {
    let (s, a) = advance_update(UpdateState::Idle, offer(None, Some("https://x/a.msi"), Some("https://x/a.sha256")));
    assert_eq!(finished_with(&a), Some(Err("Missing target version".to_string())));
    assert!(matches!(s, UpdateState::Finished { outcome: Err(ref m) } if m == "Missing target version"));
}

#[test]
fn invalid_release_version_is_refused() {
    let (s, _) = advance_update(UpdateState::Idle, offer(Some("1.0;rm"), None, None));
    let (_, a) = advance_update(s, UpdateEvent::ReleaseVersionChecked { valid: false });
    assert_eq!(
        finished_with(&a),
        Some(Err("Refusing auto-update: invalid release version '1.0;rm'".to_string()))
    );
}

#[test]
fn default_release_is_downloaded_from_github() {
    let (s, _) = advance_update(UpdateState::Idle, offer(Some("v2.0.0"), Some("https://only/one.msi"), None));
    let (s, a) = advance_update(s, UpdateEvent::ReleaseVersionChecked { valid: true });
    match a {
        UpdateAction::CheckDefaultRepository { repository } => {
            assert_eq!(repository, "Guardian-Parental-Controls/agent-windows")
        }
        _ => panic!("expected the repository check"),
    }
    let (s, a) = advance_update(s, UpdateEvent::DefaultRepositoryChecked { valid: true });
    assert!(matches!(a, UpdateAction::PrepareClient { timeout_secs: 60 }));
    let (s, a) = advance_update(s, UpdateEvent::ClientPrepared { result: Ok(()) });
    match a {
        UpdateAction::Fetch { url, .. } => assert_eq!(url, ASSET_URL),
        _ => panic!("expected the asset download"),
    }
    let (_, a) = deliver(s, vec![1, 2, 3], "release asset");
    match a {
        UpdateAction::Fetch { url, label } => {
            assert_eq!(url, format!("{ASSET_URL}.sha256"));
            assert_eq!(label, "release checksum");
        }
        _ => panic!("expected the checksum download"),
    }
}

#[test]
fn invalid_default_repository_is_refused() {
    let (s, _) = advance_update(UpdateState::Idle, offer(Some("v2.0.0"), None, Some("https://x/c")));
    let (s, _) = advance_update(s, UpdateEvent::ReleaseVersionChecked { valid: true });
    let (_, a) = advance_update(s, UpdateEvent::DefaultRepositoryChecked { valid: false });
    assert_eq!(
        finished_with(&a),
        Some(Err("Refusing auto-update: invalid default GitHub repository".to_string()))
    );
}

#[test]
fn client_failure_ends_the_run() {
    let (s, _) = advance_update(UpdateState::Idle, offer(Some("v1"), Some("https://a/x.msi"), Some("https://a/x.sha")));
    let (s, _) = advance_update(s, UpdateEvent::ReleaseVersionChecked { valid: true });
    let (_, a) = advance_update(s, UpdateEvent::ClientPrepared { result: Err("no TLS backend".to_string()) });
    assert_eq!(finished_with(&a), Some(Err("Failed to build HTTP client: no TLS backend".to_string())));
}

#[test]
fn download_failures_name_the_download() {
    let s = to_asset_fetch("https://a/x.msi", "https://a/x.sha");
    let (_, a) = advance_update(s, UpdateEvent::RequestFailed { detail: "timed out".to_string() });
    assert_eq!(finished_with(&a), Some(Err("HTTP request failed for release asset: timed out".to_string())));

    let s = to_asset_fetch("https://a/x.msi", "https://a/x.sha");
    let (_, a) = advance_update(
        s,
        UpdateEvent::Responded { status_code: 404, status_text: "404 Not Found".to_string() },
    );
    assert_eq!(
        finished_with(&a),
        Some(Err("Server returned error code 404 Not Found for release asset: https://a/x.msi".to_string()))
    );

    let s = to_asset_fetch("https://a/x.msi", "https://a/x.sha");
    let (s, _) = advance_update(s, ok_response());
    let (_, a) = advance_update(s, UpdateEvent::BodyRead { result: Err("reset".to_string()) });
    assert_eq!(finished_with(&a), Some(Err("Failed to read release asset download stream: reset".to_string())));

    let s = to_asset_fetch("https://a/x.msi", "https://a/x.sha");
    let (s, _) = deliver(s, vec![7], "release asset");
    let (_, a) = advance_update(s, UpdateEvent::RequestFailed { detail: "dns".to_string() });
    assert_eq!(finished_with(&a), Some(Err("HTTP request failed for release checksum: dns".to_string())));

    let s = to_asset_fetch("https://a/x.msi", "https://a/x.sha");
    let (s, _) = deliver(s, vec![7], "release asset");
    let (_, a) = advance_update(
        s,
        UpdateEvent::Responded { status_code: 500, status_text: "500 Internal Server Error".to_string() },
    );
    assert_eq!(
        finished_with(&a),
        Some(Err("Server returned error code 500 Internal Server Error for release checksum: https://a/x.sha".to_string()))
    );

    let s = to_asset_fetch("https://a/x.msi", "https://a/x.sha");
    let (s, _) = deliver(s, vec![7], "release asset");
    let (s, _) = advance_update(s, ok_response());
    let (_, a) = advance_update(s, UpdateEvent::BodyRead { result: Err("eof".to_string()) });
    assert_eq!(finished_with(&a), Some(Err("Failed to read release checksum download stream: eof".to_string())));
}

#[test]
fn redirect_status_is_not_success() {
    let s = to_asset_fetch("https://a/x.msi", "https://a/x.sha");
    let (_, a) = advance_update(
        s,
        UpdateEvent::Responded { status_code: 302, status_text: "302 Found".to_string() },
    );
    assert_eq!(
        finished_with(&a),
        Some(Err("Server returned error code 302 Found for release asset: https://a/x.msi".to_string()))
    );
    assert!(status_is_success(200));
    assert!(status_is_success(299));
    assert!(!status_is_success(199));
    assert!(!status_is_success(300));
}

#[test]
fn checksum_must_be_utf8() {
    let s = to_asset_fetch("https://a/x.msi", "https://a/x.sha");
    let (s, _) = deliver(s, vec![7], "release asset");
    let (s, a) = deliver(s, vec![0x61, 0xFF, 0x62], "release checksum");
    assert_eq!(
        finished_with(&a),
        Some(Err("Release checksum is not valid UTF-8: invalid utf-8 sequence of 1 bytes from index 1".to_string()))
    );
    assert!(matches!(s, UpdateState::Finished { .. }));
}

#[test]
fn failed_verification_installs_nothing() {
    let s = to_verification("https://a/x.msi", vec![1, 2, 3]);
    let (_, a) = advance_update(s, UpdateEvent::AssetVerified { result: Err("checksum mismatch".to_string()) });
    assert_eq!(finished_with(&a), Some(Err("checksum mismatch".to_string())));
}

#[test]
fn msi_url_is_installed_as_package() {
    let s = to_verification("https://a/x.msi", vec![1, 2, 3]);
    let (s, a) = advance_update(s, UpdateEvent::AssetVerified { result: Ok(()) });
    assert!(matches!(a, UpdateAction::InstallMsi { ref asset } if asset == &vec![1, 2, 3]));
    let (s, a) = advance_update(s, UpdateEvent::Installed { result: Ok(()) });
    assert_eq!(finished_with(&a), Some(Ok(())));
    assert!(matches!(s, UpdateState::Finished { outcome: Ok(()) }));
}

#[test]
fn msi_signature_is_installed_as_package() {
    let s = to_verification("https://a/download?id=7", vec![0xD0, 0xCF, 0x11, 0xE0, 0xA1]);
    let (_, a) = advance_update(s, UpdateEvent::AssetVerified { result: Ok(()) });
    assert!(matches!(a, UpdateAction::InstallMsi { .. }));
}

#[test]
fn other_assets_replace_the_executable() {
    let s = to_verification("https://a/agent.exe", b"MZ\x90\x00".to_vec());
    let (s, a) = advance_update(s, UpdateEvent::AssetVerified { result: Ok(()) });
    assert!(matches!(a, UpdateAction::ReplaceExecutable { ref asset } if asset == b"MZ\x90\x00"));
    let (_, a) = advance_update(
        s,
        UpdateEvent::Installed { result: Err(InstallFailure::ReplaceExecutable("access denied".to_string())) },
    );
    assert_eq!(
        finished_with(&a),
        Some(Err("Failed to rename/replace active executable: access denied".to_string()))
    );
}

#[test]
fn install_failures_have_their_messages() {
    let cases = vec![
        (InstallFailure::WriteMsi("disk full".to_string()), "Failed to write MSI update: disk full"),
        (InstallFailure::LaunchMsiexec("not found".to_string()), "Failed to launch msiexec: not found"),
        (InstallFailure::MsiexecExit("exit code: 1603".to_string()), "msiexec exited with exit code: 1603"),
        (InstallFailure::LocateExecutable("gone".to_string()), "Failed to determine current executable path: gone"),
        (InstallFailure::WriteTemporary("denied".to_string()), "Failed to write temporary binary file: denied"),
    ];
    for (failure, message) in cases {
        let (_, a) = advance_update(UpdateState::Installing, UpdateEvent::Installed { result: Err(failure) });
        assert_eq!(finished_with(&a), Some(Err(message.to_string())));
    }
}

#[test]
fn events_out_of_turn_are_ignored() {
    let (s, a) = advance_update(UpdateState::Idle, UpdateEvent::AssetVerified { result: Ok(()) });
    assert!(matches!(a, UpdateAction::Ignore));
    assert!(matches!(s, UpdateState::Idle));
    let s = to_asset_fetch("https://a/x.msi", "https://a/x.sha");
    let (s, a) = advance_update(s, UpdateEvent::Installed { result: Ok(()) });
    assert!(matches!(a, UpdateAction::Ignore));
    assert!(matches!(s, UpdateState::FetchingAsset { .. }));
}

#[test]
fn finished_run_stays_finished() {
    let done: State = UpdateState::Finished { outcome: Err("x".to_string()) };
    let (s, a) = advance_update(done, offer(Some("v9"), None, None));
    assert!(matches!(a, UpdateAction::Ignore));
    assert!(matches!(s, UpdateState::Finished { outcome: Err(ref m) } if m == "x"));
}

#[test]
fn release_urls_follow_github_layout() {
    let (asset, checksum) = github_release_urls("org/repo", "v3.1.4");
    assert_eq!(asset, "https://github.com/org/repo/releases/download/v3.1.4/guardian-agent-x86_64-pc-windows-msvc.msi");
    assert_eq!(checksum, format!("{asset}.sha256"));
    assert_eq!(default_repository(), "Guardian-Parental-Controls/agent-windows");
}

#[test]
fn msi_detection() {
    assert!(is_msi_package("https://a/b.msi", b"xyz"));
    assert!(is_msi_package("https://a/b", &[0xD0, 0xCF, 0x11, 0xE0]));
    assert!(!is_msi_package("https://a/b.MSI", &[0xD0, 0xCF, 0x11]));
    assert!(!is_msi_package("https://a/b.msix", b""));
}

#[test]
fn installer_invocation() {
    assert_eq!(msi_package_file_name(), "guardian-agent-update.msi");
    assert_eq!(staged_executable_extension(), "tmp");
    assert_eq!(
        msiexec_arguments("C:\\Temp\\guardian-agent-update.msi"),
        vec!["/i", "C:\\Temp\\guardian-agent-update.msi", "/qn", "/norestart"]
    );
}
