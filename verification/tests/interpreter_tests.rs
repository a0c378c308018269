use nqrust_installer::interpreter::{
    classify, extract_service_name, parse_step, progress_of_deploy, progress_of_step,
    InstallProgress, LineKind, Phase, BUILD_BASE, COMPLETE, DEPLOY_BASE,
};

#[test]
fn classification_follows_the_first_keyword_in_priority_order() {
    assert_eq!(classify("qdrant Pulling"), LineKind::PullStart);
    assert_eq!(classify("qdrant Pulled"), LineKind::PullDone);
    assert_eq!(classify(" Container qdrant  Creating"), LineKind::Creating);
    assert_eq!(classify(" Container qdrant  Created"), LineKind::Created);
    assert_eq!(classify(" Container qdrant  Starting"), LineKind::Starting);
    assert_eq!(classify(" Container qdrant  Started"), LineKind::Started);
    assert_eq!(classify(" Container qdrant  Running"), LineKind::Running);
    assert_eq!(classify("Error response from daemon"), LineKind::Failure);
    assert_eq!(classify("build failed"), LineKind::Failure);
    assert_eq!(classify("#5 [2/4] COPY . ."), LineKind::Info);
    assert_eq!(classify(""), LineKind::Blank);
    assert_eq!(classify(" \t "), LineKind::Blank);
}

#[test]
fn classification_ignores_case() {
    assert_eq!(classify("PULLING FROM LIBRARY"), LineKind::PullStart);
    assert_eq!(classify("Service STARTED"), LineKind::Started);
    assert_eq!(classify("ERROR"), LineKind::Failure);
    assert_eq!(classify("FaIlEd"), LineKind::Failure);
}

#[test]
fn earlier_keywords_win_over_later_ones() {
    assert_eq!(classify("error while pulling image"), LineKind::PullStart);
    assert_eq!(classify("pulled, then created"), LineKind::PullDone);
    assert_eq!(classify("creating after created"), LineKind::Creating);
    assert_eq!(classify("started but failed"), LineKind::Started);
    assert_eq!(classify("starting, not started"), LineKind::Starting);
    assert_eq!(classify("running with error"), LineKind::Running);
}

#[test]
fn service_names_are_found_in_list_order() {
    assert_eq!(extract_service_name("Pulling QDRANT"), Some("qdrant".to_string()));
    assert_eq!(
        extract_service_name("Container project-analytics-service-1  Creating"),
        Some("analytics-service".to_string())
    );
    assert_eq!(extract_service_name("northwind-db starting"), Some("northwind-db".to_string()));
    assert_eq!(extract_service_name("analytics-ui"), Some("analytics-ui".to_string()));
    assert_eq!(
        extract_service_name("analytics-ui waits for qdrant"),
        Some("qdrant".to_string())
    );
    assert_eq!(extract_service_name("Pulling redis"), None);
}

#[test]
fn step_reports_are_read_from_the_start_of_the_line() {
    assert_eq!(parse_step("Step 3/4 : RUN cargo build"), Some((3, 4)));
    assert_eq!(parse_step("Step 12/34"), Some((12, 34)));
    assert_eq!(parse_step("Step 0/0"), Some((0, 0)));
    assert_eq!(parse_step("Step 007/010x"), Some((7, 10)));
    assert_eq!(parse_step("Step 3/4/5"), Some((3, 4)));
    assert_eq!(parse_step("step 3/4"), None);
    assert_eq!(parse_step(" Step 3/4"), None);
    assert_eq!(parse_step("Step 3"), None);
    assert_eq!(parse_step("Step 3/"), None);
    assert_eq!(parse_step("Step /4"), None);
    assert_eq!(parse_step("Step 3 /4"), None);
    assert_eq!(parse_step("Step"), None);
    assert_eq!(parse_step("Step three/four"), None);
    assert_eq!(parse_step("Step 18446744073709551615/1"), Some((u64::MAX, 1)));
    assert_eq!(parse_step("Step 18446744073709551616/1"), None);
    assert_eq!(parse_step("Step 1/99999999999999999999999"), None);
}

#[test]
fn build_progress_is_five_percent_plus_the_share_of_forty_five() {
    assert_eq!(BUILD_BASE, 500);
    assert_eq!(DEPLOY_BASE, 5000);
    assert_eq!(progress_of_step(0, 4), 500);
    assert_eq!(progress_of_step(1, 4), 1625);
    assert_eq!(progress_of_step(2, 4), 2750);
    assert_eq!(progress_of_step(3, 4), 3875);
    assert_eq!(progress_of_step(4, 4), 5000);
    assert_eq!(progress_of_step(1, 3), 2000);
    assert_eq!(progress_of_step(1, 7), 1142);
    assert_eq!(progress_of_step(9, 4), 5000);
    assert_eq!(progress_of_step(u64::MAX, 1), 5000);
    assert_eq!(progress_of_step(u64::MAX - 1, u64::MAX), 4999);
}

#[test]
fn deploy_progress_is_fifty_percent_plus_the_share_of_fifty() {
    assert_eq!(progress_of_deploy(0, 4), 5000);
    assert_eq!(progress_of_deploy(1, 4), 6250);
    assert_eq!(progress_of_deploy(2, 4), 7500);
    assert_eq!(progress_of_deploy(3, 4), 8750);
    assert_eq!(progress_of_deploy(4, 4), 10000);
    assert_eq!(progress_of_deploy(1, 3), 6666);
    assert_eq!(progress_of_deploy(5, 4), 11250);
}

#[test]
fn a_stale_step_report_does_not_lower_the_progress() {
    let mut install = InstallProgress::new();
    assert_eq!(install.phase, Phase::Build);
    assert_eq!(install.progress, 0);
    let shown = install.observe("Step 4/4 : CMD run");
    assert_eq!(shown, Some("ℹ️  Step 4/4 : CMD run".to_string()));
    assert_eq!(install.progress, 5000);
    install.observe("Step 3/4 : COPY . .");
    assert_eq!(install.progress, 5000);
    install.observe("Step 1/4 : FROM rust");
    assert_eq!(install.progress, 5000);
}

#[test]
fn step_reports_raise_the_progress_in_the_build_phase_only() {
    let mut install = InstallProgress::new();
    install.observe("Step 1/4 : FROM rust");
    assert_eq!(install.progress, 1625);
    install.observe("Step 0/0 : nothing");
    assert_eq!(install.progress, 1625);
    install.observe("Step 2/4 : COPY");
    assert_eq!(install.progress, 2750);
    install.begin_deploy();
    assert_eq!(install.phase, Phase::Deploy);
    assert_eq!(install.progress, 5000);
    install.observe("Step 1/4 : FROM rust");
    assert_eq!(install.progress, 5000);
}

#[test]
fn progress_never_goes_back_over_a_whole_installation() {
    let lines = [
        "Step 2/5 : RUN make",
        "Step 1/5 : FROM base",
        " Container qdrant  Started",
        "Step 5/5 : CMD",
        "Step 3/5 : COPY",
        "error: retrying",
        " Container analytics-ui  Started",
    ];
    let mut install = InstallProgress::new();
    let mut last = install.progress;
    for line in lines {
        install.observe(line);
        assert!(install.progress >= last, "line {:?} lowered the progress", line);
        last = install.progress;
    }
}

#[test]
fn started_services_are_counted_and_shown() {
    let mut install = InstallProgress::new();
    install.begin_deploy();
    assert_eq!(
        install.observe(" Container qdrant  Started"),
        Some("✅ Service started (1/4)".to_string())
    );
    assert_eq!(install.completed_services, 1);
    assert_eq!(install.progress, 6250);
    install.observe("started");
    install.observe("started");
    assert_eq!(
        install.observe("started"),
        Some("✅ Service started (4/4)".to_string())
    );
    assert_eq!(install.progress, COMPLETE);
}

#[test]
fn lines_that_name_a_service_set_the_current_service() {
    let mut install = InstallProgress::new();
    assert_eq!(
        install.observe("qdrant Pulling"),
        Some("⬇️  Pulling image for qdrant...".to_string())
    );
    assert_eq!(install.current_service, "qdrant");
    assert_eq!(install.observe("redis Pulling"), None);
    assert_eq!(install.current_service, "qdrant");
    assert_eq!(
        install.observe(" Container northwind-db  Creating"),
        Some("🔨 Creating container northwind-db...".to_string())
    );
    assert_eq!(install.current_service, "northwind-db");
    assert_eq!(
        install.observe(" Container analytics-ui  Starting"),
        Some("▶️  Starting service analytics-ui...".to_string())
    );
    assert_eq!(install.current_service, "analytics-ui");
}

#[test]
fn other_lines_are_shown_with_their_mark() {
    let mut install = InstallProgress::new();
    assert_eq!(install.observe("qdrant Pulled"), Some("✓ Image pulled".to_string()));
    assert_eq!(install.observe("x Created"), Some("✓ Container created".to_string()));
    assert_eq!(install.observe("x Running"), Some("🟢 Service is running".to_string()));
    assert_eq!(install.observe("Error: boom"), Some("❌ Error: boom".to_string()));
    assert_eq!(install.observe("hello"), Some("ℹ️  hello".to_string()));
    assert_eq!(install.observe("   "), None);
    assert_eq!(install.progress, 0);
    assert_eq!(install.completed_services, 0);
}

#[test]
fn finish_sets_the_full_scale() {
    let mut install = InstallProgress::new();
    install.begin_deploy();
    install.finish();
    assert_eq!(install.phase, Phase::Done);
    assert_eq!(install.progress, 10000);
    install.observe("started");
    assert_eq!(install.progress, 10000);
    assert_eq!(install.completed_services, 1);
}
