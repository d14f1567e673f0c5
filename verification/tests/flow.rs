use tiny_update_notifier::FlowStep;
use tiny_update_notifier::NotifyError;
use tiny_update_notifier::Notifier;
use tiny_update_notifier::Source;
use tiny_update_notifier::check_cratesIO;
use tiny_update_notifier::check_github;

const NANOS_PER_SEC: u128 = 1_000_000_000;

#[test]
fn first_run_without_marker_always_fetches() {
    let n = Notifier::new(Source::CratesIO, "1.0.0", "pkg", "").interval(u64::MAX);
    assert!(n.should_check_update(None));
    assert_eq!(
        n.run(Ok(None)),
        FlowStep::Fetch("https://crates.io/api/v1/crates/pkg".to_string())
    );
}

#[test]
fn fresh_marker_short_circuits_the_run() {
    let n = Notifier::new(Source::CratesIO, "1.0.0", "pkg", "");
    assert!(!n.should_check_update(Some(NANOS_PER_SEC)));
    assert_eq!(n.run(Ok(Some(NANOS_PER_SEC))), FlowStep::Skip);
}

#[test]
fn elapsed_interval_lets_the_fetch_proceed() {
    let n = Notifier::new(Source::CratesIO, "1.0.0", "pkg", "");
    assert!(n.should_check_update(Some(25 * 3600 * NANOS_PER_SEC)));
    assert_eq!(
        n.run(Ok(Some(25 * 3600 * NANOS_PER_SEC))),
        FlowStep::Fetch("https://crates.io/api/v1/crates/pkg".to_string())
    );
}

#[test]
fn guard_boundary_is_strict() {
    let n = Notifier::new(Source::CratesIO, "1.0.0", "pkg", "").interval(10);
    assert!(!n.should_check_update(Some(10 * NANOS_PER_SEC)));
    assert!(n.should_check_update(Some(10 * NANOS_PER_SEC + 1)));
}

#[test]
fn zero_interval_checks_every_run() {
    let n = Notifier::new(Source::CratesIO, "1.0.0", "pkg", "").interval(0);
    assert!(n.should_check_update(Some(1)));
}

#[test]
fn guard_error_is_reported_as_notification() {
    let n = Notifier::new(Source::CratesIO, "1.0.0", "pkg", "");
    assert_eq!(
        n.run(Err(NotifyError::DirectoryResolution)),
        FlowStep::Notify(
            "Error: should_check_update() Failed: \nCould not get project directory".to_string()
        )
    );
    assert_eq!(
        n.run(Err(NotifyError::Filesystem("permission denied".to_string()))),
        FlowStep::Notify("Error: should_check_update() Failed: \npermission denied".to_string())
    );
}

#[test]
fn invalid_repo_url_is_reported_without_a_fetch() {
    let n = Notifier::new(Source::GitHub, "1.0.0", "pkg", "https://github.com");
    assert_eq!(
        n.run(Ok(None)),
        FlowStep::Notify("Error: get_latest_version() failed: \nInvalid GitHub repo url".to_string())
    );
}

#[test]
fn downgrade_still_triggers_a_notification() {
    let n = Notifier::new(Source::CratesIO, "1.0.0", "pkg", "");
    let out = n.check_version(Ok("{\"crate\":{\"max_stable_version\":\"0.9.0\"}}".to_string()));
    assert!(out.write_marker);
    assert_eq!(
        out.notification.unwrap(),
        "A new release of pkg is available: \nv1.0.0 -> v0.9.0"
    );
}

#[test]
fn transport_failure_keeps_the_marker() {
    let n = Notifier::new(Source::CratesIO, "1.0.0", "pkg", "");
    let out = n.check_version(Err(NotifyError::Transport("connection refused".to_string())));
    assert!(!out.write_marker);
    assert_eq!(
        out.notification.unwrap(),
        "Error: get_latest_version() failed: \nconnection refused"
    );
}

#[test]
fn parse_failure_keeps_the_marker() {
    let n = Notifier::new(Source::CratesIO, "1.0.0", "pkg", "");
    let out = n.check_version(Ok("not json".to_string()));
    assert!(!out.write_marker);
    assert_eq!(
        out.notification.unwrap(),
        "Error: get_latest_version() failed: \ncould not extract version from response body"
    );
}

#[test]
fn crates_io_update_notifies_and_refreshes_marker() {
    let n = check_cratesIO("1.0.0", "pkg");
    assert_eq!(
        n.run(Ok(None)),
        FlowStep::Fetch("https://crates.io/api/v1/crates/pkg".to_string())
    );
    let out = n.check_version(Ok("{\"crate\":{\"max_stable_version\":\"1.2.0\"}}".to_string()));
    assert!(out.write_marker);
    let msg = out.notification.unwrap();
    assert!(msg.contains("1.0.0"));
    assert!(msg.contains("1.2.0"));
    assert_eq!(msg, "A new release of pkg is available: \nv1.0.0 -> v1.2.0");
}

#[test]
fn github_equal_after_normalization_stays_quiet_but_refreshes() {
    let n = check_github("1.2.0", "pkg", "https://github.com/owner/repo");
    assert_eq!(
        n.run(Ok(None)),
        FlowStep::Fetch("https://api.github.com/repos/owner/repo/releases/latest".to_string())
    );
    let out = n.check_version(Ok("{\"tag_name\":\"v1.2.0\"}".to_string()));
    assert!(out.write_marker);
    assert_eq!(out.notification, None);
}

#[test]
fn update_message_links_to_the_release_when_a_repo_url_is_known() {
    let n = check_github("1.0.0", "pkg", "https://github.com/owner/repo");
    let out = n.check_version(Ok("{\"tag_name\":\"v2.0.0\"}".to_string()));
    assert!(out.write_marker);
    assert_eq!(
        out.notification.unwrap(),
        "A new release of pkg is available: \nv1.0.0 -> v2.0.0\nhttps://github.com/owner/repo/releases/tag/2.0.0"
    );
}

#[test]
fn write_failure_message_carries_the_reason() {
    let n = check_cratesIO("1.0.0", "pkg");
    assert_eq!(
        n.write_error_message(&NotifyError::Filesystem("disk full".to_string())),
        "Error: write_last_checked() failed: \ndisk full"
    );
}

#[test]
fn interval_builder_overrides_only_the_interval() {
    let n = Notifier::new(Source::GitHub, "1.0.0", "pkg", "https://github.com/owner/repo")
        .interval(7 * 24 * 3600);
    assert_eq!(n.interval_secs, 7 * 24 * 3600);
    assert_eq!(n.version, "1.0.0");
    assert_eq!(n.name, "pkg");
    assert_eq!(n.repo_url, "https://github.com/owner/repo");
    assert!(!n.should_check_update(Some(6 * 24 * 3600 * NANOS_PER_SEC)));
    assert!(n.should_check_update(Some(8 * 24 * 3600 * NANOS_PER_SEC)));
}

#[test]
fn error_messages_match_their_variants() {
    assert_eq!(
        NotifyError::DirectoryResolution.message(),
        "Could not get project directory"
    );
    assert_eq!(NotifyError::InvalidRepoUrl.message(), "Invalid GitHub repo url");
    assert_eq!(NotifyError::Transport("t".to_string()).message(), "t");
    assert_eq!(NotifyError::Filesystem("f".to_string()).message(), "f");
    assert_eq!(NotifyError::Parse("p".to_string()).message(), "p");
}
