use nqrust_installer::registry::{
    after_listing_response, apply_remote_versions, collect_tags, collect_update_infos,
    first_timestamp, get_local_image_created, insert_tag, inspect_arguments, resolve_service,
    versions_url, Listing, ListingStep, LocalInspection, PackageVersion, Scope,
};
use nqrust_installer::updates::{
    append_status, service_configs, ServiceConfig, Timestamp, UpdateInfo, OWNER,
};

fn at(secs: i64) -> Timestamp {
    Timestamp { secs, nanos: 0 }
}

fn identity() -> ServiceConfig {
    ServiceConfig {
        display_name: "Identity",
        image: "ghcr.io/nexusquantum/nqrust-identity",
        package: "nqrust-identity",
        current_tag: "latest",
    }
}

fn version(tags: Option<&[&str]>, created: Option<i64>, updated: Option<i64>) -> PackageVersion {
    PackageVersion {
        tags: tags.map(|list| list.iter().map(|t| t.to_string()).collect()),
        created_at: created.map(at),
        updated_at: updated.map(at),
    }
}

#[test]
fn update_is_due_without_a_local_timestamp() {
    let mut info = UpdateInfo::new(&identity());
    info.remote_latest_updated = Some(at(1_000));
    info.local_created = None;
    info.recompute_status();
    assert!(info.has_update);
}

#[test]
fn no_update_without_a_remote_timestamp() {
    let mut info = UpdateInfo::new(&identity());
    info.has_update = true;
    info.remote_latest_updated = None;
    info.local_created = Some(at(1_000));
    info.recompute_status();
    assert!(!info.has_update);
    info.local_created = None;
    info.has_update = true;
    info.recompute_status();
    assert!(!info.has_update);
}

#[test]
fn update_is_due_only_beyond_five_seconds() {
    let mut info = UpdateInfo::new(&identity());
    info.local_created = Some(at(1_000));
    for (remote, expected) in [
        (Timestamp { secs: 900, nanos: 0 }, false),
        (Timestamp { secs: 1_000, nanos: 0 }, false),
        (Timestamp { secs: 1_004, nanos: 999_999_999 }, false),
        (Timestamp { secs: 1_005, nanos: 0 }, false),
        (Timestamp { secs: 1_005, nanos: 1 }, true),
        (Timestamp { secs: 1_006, nanos: 0 }, true),
        (Timestamp { secs: i64::MAX, nanos: 999_999_999 }, true),
        (Timestamp { secs: i64::MIN, nanos: 0 }, false),
    ] {
        info.remote_latest_updated = Some(remote);
        info.recompute_status();
        assert_eq!(info.has_update, expected, "remote {:?}", remote);
    }
}

#[test]
fn timestamps_compare_across_the_epoch_and_by_nanoseconds() {
    let local = Timestamp { secs: -3, nanos: 500_000_000 };
    assert!(!Timestamp { secs: 2, nanos: 500_000_000 }.is_newer_than(&local));
    assert!(Timestamp { secs: 2, nanos: 500_000_001 }.is_newer_than(&local));
    assert!(!local.is_newer_than(&local));
    assert!(Timestamp { secs: i64::MAX, nanos: 0 }.is_newer_than(&Timestamp { secs: i64::MIN, nanos: 0 }));
    assert!(!Timestamp { secs: i64::MIN, nanos: 0 }.is_newer_than(&Timestamp { secs: i64::MAX, nanos: 0 }));
}

#[test]
fn apply_local_created_judges_anew() {
    let mut info = UpdateInfo::new(&identity());
    info.remote_latest_updated = Some(at(2_000));
    info.apply_local_created(Some(at(1_000)));
    assert_eq!(info.local_created, Some(at(1_000)));
    assert!(info.has_update);
    info.apply_local_created(Some(at(1_999)));
    assert!(!info.has_update);
    info.apply_local_created(None);
    assert_eq!(info.local_created, None);
    assert!(info.has_update);
}

#[test]
fn the_installer_entry_keeps_its_verdict() {
    let mut info = UpdateInfo::new(&identity());
    info.is_self = true;
    info.has_update = false;
    info.remote_latest_updated = Some(at(2_000));
    info.recompute_status();
    assert!(!info.has_update);
    info.apply_local_created(Some(at(1)));
    assert_eq!(info.local_created, None);
    assert!(!info.has_update);
}

#[test]
fn status_notes_are_joined() {
    let mut note: Option<String> = None;
    append_status(&mut note, "first");
    assert_eq!(note, Some("first".to_string()));
    append_status(&mut note, "second");
    assert_eq!(note, Some("first; second".to_string()));
    let mut info = UpdateInfo::new(&identity());
    info.append_status("a");
    info.append_status("b");
    info.append_status("");
    assert_eq!(info.status_note, Some("a; b; ".to_string()));
}

#[test]
fn clear_local_error_drops_only_inspection_notes() {
    let mut info = UpdateInfo::new(&identity());
    info.clear_local_error();
    assert_eq!(info.status_note, None);
    info.status_note = Some("No tags found for this image yet".to_string());
    info.clear_local_error();
    assert_eq!(info.status_note, Some("No tags found for this image yet".to_string()));
    info.status_note = Some("x; Failed to inspect local image: gone".to_string());
    info.clear_local_error();
    assert_eq!(info.status_note, None);
}

#[test]
fn pull_reference_and_status_text() {
    let mut info = UpdateInfo::new(&identity());
    assert_eq!(info.pull_reference(), "ghcr.io/nexusquantum/nqrust-identity:latest");
    assert_eq!(info.status_text(), "Up to date");
    info.has_update = true;
    assert_eq!(info.status_text(), "Update available");
    info.status_note = Some("note".to_string());
    assert_eq!(info.status_text(), "note");
}

#[test]
fn the_services_followed_are_fixed() {
    let services = service_configs();
    assert_eq!(OWNER, "NexusQuantum");
    assert_eq!(services.len(), 2);
    assert_eq!(services[0].display_name, "PostgreSQL Database");
    assert_eq!(services[0].image, "postgres");
    assert_eq!(services[0].package, "postgres");
    assert_eq!(services[0].current_tag, "16-alpine");
    assert_eq!(services[1].display_name, "NQRust Identity (Keycloak)");
    assert_eq!(services[1].image, "ghcr.io/nexusquantum/nqrust-identity");
    assert_eq!(services[1].package, "nqrust-identity");
    assert_eq!(services[1].current_tag, "latest");
}

#[test]
fn tags_are_collected_once_and_in_dictionary_order() {
    let versions = vec![
        version(Some(&["latest", "v1.2.0"]), Some(10), Some(20)),
        version(None, Some(5), None),
        version(Some(&[]), None, None),
        version(Some(&["1.10.0", "latest", "1.9.9"]), Some(1), None),
    ];
    assert_eq!(collect_tags(&versions), vec!["1.10.0", "1.9.9", "latest", "v1.2.0"]);
    assert!(collect_tags(&vec![]).is_empty());
    let mut tags: Vec<String> = Vec::new();
    for tag in ["b", "a", "c", "a", "b", "ab"] {
        insert_tag(&mut tags, tag);
    }
    assert_eq!(tags, vec!["a", "ab", "b", "c"]);
}

#[test]
fn the_first_version_with_a_time_dates_a_tag() {
    let versions = vec![
        version(Some(&["latest"]), None, None),
        version(Some(&["other"]), Some(1), Some(2)),
        version(Some(&["latest", "v1"]), Some(30), None),
        version(Some(&["latest"]), Some(40), Some(50)),
        version(Some(&["v2"]), Some(60), Some(70)),
    ];
    assert_eq!(first_timestamp(&versions, "latest"), Some(at(30)));
    assert_eq!(first_timestamp(&versions, "v2"), Some(at(70)));
    assert_eq!(first_timestamp(&versions, "other"), Some(at(2)));
    assert_eq!(first_timestamp(&versions, "missing"), None);
    assert_eq!(versions[3].timestamp(), Some(at(50)));
    assert_eq!(versions[2].timestamp(), Some(at(30)));
    assert_eq!(versions[0].timestamp(), None);
    assert!(versions[2].has_tag("v1"));
    assert!(!versions[2].has_tag("v"));
    assert!(!version(None, None, None).has_tag("latest"));
}

#[test]
fn a_listing_fills_the_entry() {
    let mut info = UpdateInfo::new(&identity());
    info.local_created = Some(at(100));
    let versions = vec![
        version(Some(&["latest", "1.10.0"]), Some(150), Some(200)),
        version(Some(&["1.9.9"]), Some(90), None),
        version(Some(&["1.2.0", "nightly"]), None, None),
    ];
    apply_remote_versions(&mut info, &versions);
    assert_eq!(info.available_tags, vec!["1.10.0", "1.2.0", "1.9.9", "latest", "nightly"]);
    assert_eq!(info.latest_release_tag, Some("1.10.0".to_string()));
    assert_eq!(info.latest_release_published, Some(at(200)));
    assert_eq!(info.remote_latest_updated, Some(at(200)));
    assert!(info.has_update);
    assert_eq!(info.status_note, None);
    assert_eq!(info.local_created, Some(at(100)));
}

#[test]
fn the_freshness_is_that_of_the_tag_latest_not_of_the_latest_release() {
    let mut info = UpdateInfo::new(&identity());
    info.local_created = Some(at(1_000));
    let versions = vec![
        version(Some(&["2.0.0"]), None, Some(5_000)),
        version(Some(&["latest", "1.0.0"]), None, Some(1_003)),
    ];
    apply_remote_versions(&mut info, &versions);
    assert_eq!(info.latest_release_tag, Some("2.0.0".to_string()));
    assert_eq!(info.latest_release_published, Some(at(5_000)));
    assert_eq!(info.remote_latest_updated, Some(at(1_003)));
    assert!(!info.has_update);
}

#[test]
fn a_listing_without_tags_leaves_a_note() {
    let mut info = UpdateInfo::new(&identity());
    info.status_note = Some("earlier".to_string());
    apply_remote_versions(&mut info, &vec![version(None, Some(1), Some(2))]);
    assert!(info.available_tags.is_empty());
    assert_eq!(info.latest_release_tag, None);
    assert_eq!(info.remote_latest_updated, None);
    assert!(!info.has_update);
    assert_eq!(info.status_note, Some("earlier; No tags found for this image yet".to_string()));
}

#[test]
fn a_listing_without_releases_keeps_the_release_fields() {
    let mut info = UpdateInfo::new(&identity());
    info.latest_release_tag = Some("0.1.0".to_string());
    info.latest_release_published = Some(at(7));
    apply_remote_versions(&mut info, &vec![version(Some(&["latest", "main"]), Some(1), None)]);
    assert_eq!(info.latest_release_tag, Some("0.1.0".to_string()));
    assert_eq!(info.latest_release_published, Some(at(7)));
    assert_eq!(info.remote_latest_updated, Some(at(1)));
}

#[test]
fn an_unknown_package_still_gets_an_entry() {
    let info = resolve_service(
        &identity(),
        &Listing::NotFound,
        &LocalInspection::Failed("docker not found".to_string()),
    );
    assert_eq!(info.display_name, "Identity");
    assert_eq!(info.image, "ghcr.io/nexusquantum/nqrust-identity");
    assert_eq!(info.current_tag, "latest");
    assert!(info.available_tags.is_empty());
    assert!(!info.has_update);
    assert!(!info.is_self);
    assert_eq!(info.local_created, None);
    assert_eq!(
        info.status_note,
        Some(
            "Package not found in GitHub Container Registry; Failed to inspect local image: docker not found"
                .to_string()
        )
    );
}

#[test]
fn an_image_that_cannot_be_inspected_counts_as_outdated() {
    let listing = Listing::Found(vec![version(Some(&["latest"]), Some(10), None)]);
    let failed = resolve_service(&identity(), &listing, &LocalInspection::Failed("boom".to_string()));
    assert!(failed.has_update);
    assert_eq!(failed.status_note, Some("Failed to inspect local image: boom".to_string()));
    let absent = resolve_service(&identity(), &listing, &LocalInspection::Created(None));
    assert!(absent.has_update);
    assert_eq!(absent.status_note, None);
    let current = resolve_service(&identity(), &listing, &LocalInspection::Created(Some(at(10))));
    assert!(!current.has_update);
    assert_eq!(current.local_created, Some(at(10)));
}

#[test]
fn all_services_are_resolved_in_order_and_the_installer_comes_last() {
    let services = service_configs();
    let listings = vec![
        Listing::NotFound,
        Listing::Found(vec![version(Some(&["latest", "v1.0.0"]), Some(10), None)]),
    ];
    let locals = vec![LocalInspection::Created(None), LocalInspection::Created(Some(at(1)))];
    let mut installer = UpdateInfo::new(&identity());
    installer.is_self = true;
    installer.display_name = "Installer (self-update)".to_string();
    let infos = collect_update_infos(&services, &listings, &locals, Some(installer));
    assert_eq!(infos.len(), 3);
    assert_eq!(infos[0].display_name, "PostgreSQL Database");
    assert_eq!(infos[0].status_note, Some("Package not found in GitHub Container Registry".to_string()));
    assert_eq!(infos[1].display_name, "NQRust Identity (Keycloak)");
    assert_eq!(infos[1].latest_release_tag, Some("v1.0.0".to_string()));
    assert!(infos[1].has_update);
    assert!(infos[2].is_self);
    let without = collect_update_infos(&services, &listings, &locals, None);
    assert_eq!(without.len(), 2);
}

#[test]
fn listing_answers_are_judged_by_their_status() {
    assert!(matches!(
        after_listing_response(Scope::Organization, "pkg", 200, "200 OK", "[]"),
        ListingStep::Read
    ));
    assert!(matches!(
        after_listing_response(Scope::Organization, "pkg", 404, "404 Not Found", ""),
        ListingStep::Retry(Scope::User)
    ));
    assert!(matches!(
        after_listing_response(Scope::User, "pkg", 404, "404 Not Found", ""),
        ListingStep::NotFound
    ));
    for code in [401, 403] {
        match after_listing_response(Scope::User, "pkg", code, "denied", "Bad credentials") {
            ListingStep::Fail(message) => assert_eq!(
                message,
                "GitHub API request for package pkg requires authentication: Bad credentials"
            ),
            _ => panic!("a status of {} must fail", code),
        }
    }
    for code in [500, 503, 599] {
        match after_listing_response(Scope::Organization, "pkg", code, "503 Service Unavailable", "down") {
            ListingStep::Fail(message) => {
                assert_eq!(message, "GitHub API error 503 Service Unavailable for package pkg: down")
            }
            _ => panic!("a status of {} must fail", code),
        }
    }
    for code in [201, 204, 301, 400, 418, 429, 600] {
        match after_listing_response(Scope::Organization, "pkg", code, "418 I'm a teapot", "short") {
            ListingStep::Fail(message) => {
                assert_eq!(message, "Failed to fetch package pkg: 418 I'm a teapot short")
            }
            _ => panic!("a status of {} must fail", code),
        }
    }
}

#[test]
fn listing_addresses() {
    assert_eq!(
        versions_url(Scope::Organization, "NexusQuantum", "postgres"),
        "https://api.github.com/orgs/NexusQuantum/packages/container/postgres/versions?per_page=100"
    );
    assert_eq!(
        versions_url(Scope::User, "someone", "pkg"),
        "https://api.github.com/users/someone/packages/container/pkg/versions?per_page=100"
    );
    assert_eq!(
        inspect_arguments("postgres", "16-alpine"),
        vec!["image", "inspect", "postgres:16-alpine", "--format", "{{.Created}}"]
    );
}

#[test]
fn creation_time_is_read_from_the_inspection_output() {
    assert_eq!(
        get_local_image_created(true, "2024-01-02T03:04:05.123456789Z\n"),
        Some(Timestamp { secs: 1_704_164_645, nanos: 123_456_789 })
    );
    assert_eq!(
        get_local_image_created(true, "  2024-01-02T05:04:05+02:00  "),
        Some(Timestamp { secs: 1_704_164_645, nanos: 0 })
    );
    assert_eq!(
        get_local_image_created(true, "1969-12-31T23:59:59Z"),
        Some(Timestamp { secs: -1, nanos: 0 })
    );
    assert_eq!(get_local_image_created(false, "2024-01-02T03:04:05Z"), None);
    assert_eq!(get_local_image_created(true, ""), None);
    assert_eq!(get_local_image_created(true, " \n"), None);
    assert_eq!(get_local_image_created(true, "yesterday"), None);
    assert_eq!(get_local_image_created(true, "2024-01-02 03:04:05"), None);
}
