use nqrust_installer::release::{
    after_release_response, installer_entry, installer_has_update, latest_release_url,
    pick_assets, Release, ReleaseAsset, ReleaseStep,
};
use nqrust_installer::selfupdate::{
    expected_digest, installer_arguments, leading_word, package_file_name, verify_checksum,
    DownloadProgress, ProgressReport, SelfUpdate, UpdateAction, UpdateEvent, UpdateStage,
    Verification, CHECKSUM_PROGRAM, DOWNLOAD_TIMEOUT_SECONDS, PRIVILEGE_PROGRAM,
};
use nqrust_installer::updates::Timestamp;

fn asset(name: &str, url: &str) -> ReleaseAsset {
    ReleaseAsset { name: name.to_string(), download_url: url.to_string() }
}

#[test]
fn the_last_matching_asset_is_picked() {
    let assets = vec![
        asset("installer_1.0.0_arm64.deb", "u0"),
        asset("installer_1.0.0_amd64.deb", "u1"),
        asset("sha256sums", "c1"),
        asset("installer-extra_1.0.0_amd64.deb", "u2"),
        asset("SHA256SUMS", "c2"),
        asset("SHA256SUMS.sig", "c3"),
    ];
    assert_eq!(pick_assets(&assets), (Some("u2".to_string()), Some("c2".to_string())));
    assert_eq!(pick_assets(&vec![]), (None, None));
    assert_eq!(pick_assets(&vec![asset("a.tar.gz", "x")]), (None, None));
}

#[test]
fn the_installer_has_an_update_when_the_release_outranks_it() {
    assert!(installer_has_update("v0.2.0", "0.1.9"));
    assert!(installer_has_update("0.10.0", "0.9.0"));
    assert!(!installer_has_update("v0.1.9", "0.1.9"));
    assert!(!installer_has_update("v0.1.8", "0.1.9"));
    assert!(!installer_has_update("latest", "0.1.9"));
    assert!(!installer_has_update("vv0.2.0", "0.1.9"));
    assert!(installer_has_update("v0.0.1", "not a version"));
    assert!(!installer_has_update("v0.0.0", "not a version"));
    assert!(installer_has_update("v1.0.0", "1.0.0-rc.1"));
    assert!(!installer_has_update("v1.0.0+b", "1.0.0+a"));
}

#[test]
fn the_installer_entry_is_made_from_the_release() {
    let release = Release {
        tag_name: "v0.3.0".to_string(),
        published_at: Some(Timestamp { secs: 99, nanos: 0 }),
        assets: vec![asset("installer_0.3.0_amd64.deb", "pkg"), asset("SHA256SUMS", "sums")],
    };
    let info = installer_entry(&release, "0.2.5").expect("the release publishes a package");
    assert_eq!(info.display_name, "Installer (self-update)");
    assert_eq!(info.image, "installer");
    assert_eq!(info.current_tag, "v0.2.5");
    assert!(info.available_tags.is_empty());
    assert_eq!(info.latest_release_tag, Some("v0.3.0".to_string()));
    assert_eq!(info.latest_release_published, Some(Timestamp { secs: 99, nanos: 0 }));
    assert_eq!(info.remote_latest_updated, Some(Timestamp { secs: 99, nanos: 0 }));
    assert_eq!(info.local_created, None);
    assert_eq!(info.status_note, None);
    assert!(info.has_update);
    assert!(info.is_self);
    assert_eq!(info.download_url, Some("pkg".to_string()));
    assert_eq!(info.checksum_url, Some("sums".to_string()));
    let same = installer_entry(&release, "0.3.0").unwrap();
    assert!(!same.has_update);
}

#[test]
fn a_release_without_a_package_gives_no_entry() {
    let release = Release {
        tag_name: "v9.9.9".to_string(),
        published_at: None,
        assets: vec![asset("SHA256SUMS", "sums"), asset("installer.rpm", "rpm")],
    };
    assert!(installer_entry(&release, "0.1.0").is_none());
}

#[test]
fn release_answers_are_judged_by_their_status() {
    assert_eq!(
        latest_release_url("NexusQuantum"),
        "https://api.github.com/repos/NexusQuantum/installer-NQRust-Identity/releases/latest"
    );
    assert!(matches!(after_release_response(404, "404 Not Found", ""), ReleaseStep::Skip));
    assert!(matches!(after_release_response(200, "200 OK", "{}"), ReleaseStep::Read));
    assert!(matches!(after_release_response(299, "299", "{}"), ReleaseStep::Read));
    for code in [199, 300, 401, 403, 500] {
        match after_release_response(code, "403 Forbidden", "rate limited") {
            ReleaseStep::Fail(message) => assert_eq!(
                message,
                "GitHub API error 403 Forbidden for the installer release: rate limited"
            ),
            _ => panic!("a status of {} must fail", code),
        }
    }
}

#[test]
fn checksum_of_the_named_file_is_verified() {
    assert!(matches!(
        verify_checksum("abc123  installer_v1.deb", "installer_v1.deb", "abc123"),
        Verification::Verified
    ));
    assert!(matches!(
        verify_checksum("abc123  installer_v1.deb\n", "installer_v1.deb", "abc123  /tmp/installer_v1.deb\n"),
        Verification::Verified
    ));
    assert!(matches!(
        verify_checksum("ABC123  installer_v1.deb", "installer_v1.deb", "abc123"),
        Verification::Verified
    ));
}

#[test]
fn a_digest_that_differs_is_a_mismatch() {
    match verify_checksum("abc123  installer_v1.deb", "installer_v1.deb", "abc124  installer_v1.deb") {
        Verification::Mismatch { expected, actual } => {
            assert_eq!(expected, "abc123");
            assert_eq!(actual, "abc124");
        }
        _ => panic!("differing digests must not verify"),
    }
    assert!(matches!(
        verify_checksum("abc123  installer_v1.deb", "installer_v1.deb", ""),
        Verification::Mismatch { .. }
    ));
    assert!(matches!(
        verify_checksum("abc123  installer_v1.deb", "installer_v1.deb", "abc12"),
        Verification::Mismatch { .. }
    ));
}

#[test]
fn a_manifest_that_does_not_name_the_file_gives_no_entry() {
    assert!(matches!(
        verify_checksum("abc123  other.deb\ndef456  another.deb", "installer_v1.deb", "abc123"),
        Verification::NoEntry
    ));
    assert!(matches!(verify_checksum("", "installer_v1.deb", "abc123"), Verification::NoEntry));
    assert!(matches!(verify_checksum("abc  x", "", "abc"), Verification::NoEntry));
}

#[test]
fn the_manifest_is_searched_line_by_line() {
    let manifest = "111  a.deb\r\n222 *b.deb\n\n  333\t./dist/c.deb  \n444  c.deb\nc.deb\n";
    assert_eq!(expected_digest(manifest, "a.deb"), Some("111".to_string()));
    assert_eq!(expected_digest(manifest, "b.deb"), Some("222".to_string()));
    assert_eq!(expected_digest(manifest, "c.deb"), Some("333".to_string()));
    assert_eq!(expected_digest(manifest, "d.deb"), None);
    assert_eq!(expected_digest("c.deb", "c.deb"), None);
    assert_eq!(expected_digest("abcc.deb", "c.deb"), None);
    assert_eq!(expected_digest("ab c.deb", "b c.deb"), None);
    assert_eq!(leading_word("  abc  def"), "abc");
    assert_eq!(leading_word("abc"), "abc");
    assert_eq!(leading_word("   "), "");
}

#[test]
fn a_download_of_known_size_is_reported_in_steps_of_five_percent() {
    let mut progress = DownloadProgress::new(Some(1000));
    assert_eq!(progress.advance(49), None);
    assert_eq!(progress.advance(1), Some(ProgressReport::Percent(5)));
    assert_eq!(progress.advance(49), None);
    assert_eq!(progress.advance(1), Some(ProgressReport::Percent(10)));
    assert_eq!(progress.advance(333), Some(ProgressReport::Percent(40)));
    assert_eq!(progress.advance(0), None);
    assert_eq!(progress.advance(566), Some(ProgressReport::Percent(95)));
    assert_eq!(progress.advance(1), Some(ProgressReport::Percent(100)));
    assert_eq!(progress.advance(500), None);
    assert_eq!(progress.received, 1500);
    assert_eq!(progress.mark(), 100);
}

#[test]
fn a_download_of_unknown_size_is_reported_by_the_megabyte() {
    for total in [None, Some(0)] {
        let mut progress = DownloadProgress::new(total);
        assert_eq!(progress.advance(1_048_575), None);
        assert_eq!(progress.advance(1), Some(ProgressReport::Megabytes(1)));
        assert_eq!(progress.advance(1_048_575), None);
        assert_eq!(progress.advance(3 * 1_048_576), Some(ProgressReport::Megabytes(4)));
    }
    let mut huge = DownloadProgress::new(Some(u64::MAX));
    assert_eq!(huge.advance(u64::MAX - 1), Some(ProgressReport::Percent(95)));
    assert_eq!(huge.advance(u64::MAX), Some(ProgressReport::Percent(100)));
    assert_eq!(huge.received, u64::MAX);
}

#[test]
fn a_verified_package_is_installed() {
    let mut update = SelfUpdate::begin("installer_v1.deb", true);
    assert_eq!(update.stage, UpdateStage::Downloading);
    assert_eq!(update.on_event(&UpdateEvent::Downloaded), UpdateAction::FetchManifest);
    assert_eq!(
        update.on_event(&UpdateEvent::ManifestFetched("abc123  installer_v1.deb".to_string())),
        UpdateAction::ComputeDigest
    );
    assert_eq!(update.expected, Some("abc123".to_string()));
    assert_eq!(
        update.on_event(&UpdateEvent::DigestComputed("abc123  /tmp/installer_v1.deb".to_string())),
        UpdateAction::RunInstaller
    );
    assert_eq!(update.stage, UpdateStage::Installing);
    assert!(!update.is_over());
    assert_eq!(
        update.on_event(&UpdateEvent::InstallerExited { success: true, diagnostics: String::new() }),
        UpdateAction::ReportInstalled
    );
    assert_eq!(update.stage, UpdateStage::Installed);
    assert!(update.is_over());
    assert_eq!(
        update.message,
        Some("Update installed. Restart the installer to run the new version.".to_string())
    );
    assert_eq!(update.warning, None);
}

#[test]
fn a_mismatch_fails_the_update_before_any_install_step() {
    let mut update = SelfUpdate::begin("installer_v1.deb", true);
    update.on_event(&UpdateEvent::Downloaded);
    update.on_event(&UpdateEvent::ManifestFetched("abc123  installer_v1.deb".to_string()));
    assert_eq!(
        update.on_event(&UpdateEvent::DigestComputed("ffffff  installer_v1.deb".to_string())),
        UpdateAction::ReportFailure
    );
    assert_eq!(update.stage, UpdateStage::Failed);
    assert_eq!(
        update.message,
        Some("Checksum mismatch for installer_v1.deb: expected abc123, got ffffff".to_string())
    );
    for event in [
        UpdateEvent::Downloaded,
        UpdateEvent::ManifestFetched("ffffff  installer_v1.deb".to_string()),
        UpdateEvent::DigestComputed("abc123".to_string()),
        UpdateEvent::InstallerExited { success: true, diagnostics: String::new() },
    ] {
        assert_eq!(update.on_event(&event), UpdateAction::Nothing);
        assert_eq!(update.stage, UpdateStage::Failed);
    }
}

#[test]
fn verification_is_skipped_without_a_manifest_or_an_entry() {
    let mut plain = SelfUpdate::begin("installer_v1.deb", false);
    assert_eq!(plain.on_event(&UpdateEvent::Downloaded), UpdateAction::RunInstaller);
    assert_eq!(plain.warning, None);
    let mut unnamed = SelfUpdate::begin("installer_v1.deb", true);
    unnamed.on_event(&UpdateEvent::Downloaded);
    assert_eq!(
        unnamed.on_event(&UpdateEvent::ManifestFetched("abc123  other.deb".to_string())),
        UpdateAction::RunInstaller
    );
    assert_eq!(unnamed.stage, UpdateStage::Installing);
    assert_eq!(
        unnamed.warning,
        Some("No checksum published for installer_v1.deb; verification skipped".to_string())
    );
    assert_eq!(unnamed.message, None);
}

#[test]
fn failures_of_the_steps_end_the_update_with_their_message() {
    let mut a = SelfUpdate::begin("p.deb", true);
    assert_eq!(a.on_event(&UpdateEvent::DownloadFailed("timeout".to_string())), UpdateAction::ReportFailure);
    assert_eq!(a.message, Some("Failed to download the installer package: timeout".to_string()));
    let mut b = SelfUpdate::begin("p.deb", true);
    b.on_event(&UpdateEvent::Downloaded);
    assert_eq!(b.on_event(&UpdateEvent::ManifestFailed("404".to_string())), UpdateAction::ReportFailure);
    assert_eq!(b.message, Some("Failed to download the checksum manifest: 404".to_string()));
    let mut c = SelfUpdate::begin("p.deb", true);
    c.on_event(&UpdateEvent::Downloaded);
    c.on_event(&UpdateEvent::ManifestFetched("aa  p.deb".to_string()));
    assert_eq!(c.on_event(&UpdateEvent::DigestFailed("no sha256sum".to_string())), UpdateAction::ReportFailure);
    assert_eq!(c.message, Some("Failed to compute the checksum: no sha256sum".to_string()));
    let mut d = SelfUpdate::begin("p.deb", false);
    d.on_event(&UpdateEvent::Downloaded);
    assert_eq!(
        d.on_event(&UpdateEvent::InstallerExited { success: false, diagnostics: "dpkg: error".to_string() }),
        UpdateAction::ReportFailure
    );
    assert_eq!(d.stage, UpdateStage::Failed);
    assert_eq!(d.message, Some("Package installation failed: dpkg: error".to_string()));
}

#[test]
fn events_out_of_turn_are_ignored() {
    let mut update = SelfUpdate::begin("p.deb", true);
    assert_eq!(update.on_event(&UpdateEvent::DigestComputed("aa".to_string())), UpdateAction::Nothing);
    assert_eq!(
        update.on_event(&UpdateEvent::InstallerExited { success: true, diagnostics: String::new() }),
        UpdateAction::Nothing
    );
    assert_eq!(update.on_event(&UpdateEvent::ManifestFetched("aa  p.deb".to_string())), UpdateAction::Nothing);
    assert_eq!(update.stage, UpdateStage::Downloading);
    assert_eq!(update.expected, None);
    assert_eq!(update.message, None);
}

#[test]
fn the_package_is_named_after_the_last_segment_of_its_address() {
    assert_eq!(
        package_file_name("https://example.com/releases/v1/installer_1.0.0_amd64.deb"),
        "installer_1.0.0_amd64.deb"
    );
    assert_eq!(package_file_name("installer.deb"), "installer.deb");
    assert_eq!(package_file_name("https://example.com/"), "");
    assert_eq!(package_file_name(""), "");
    assert_eq!(package_file_name("/a/b"), "b");
}

#[test]
fn the_commands_of_the_self_update() {
    assert_eq!(CHECKSUM_PROGRAM, "sha256sum");
    assert_eq!(PRIVILEGE_PROGRAM, "sudo");
    assert_eq!(DOWNLOAD_TIMEOUT_SECONDS, 60);
    assert_eq!(installer_arguments("/tmp/p.deb"), vec!["dpkg", "-i", "/tmp/p.deb"]);
}
