use statusdash::classifier::{classify, DEFAULT_WARNING_EXIT_CODE};
use statusdash::config::CssMetadataConfig;
use statusdash::outcome::{RawOutcome, SPAWN_FAILURE_EXIT_CODE, TIMEOUT_EXIT_CODE};
use statusdash::status::StatusState;

fn table(tag: &str) -> Vec<(String, String)> {
    vec![("class".to_string(), tag.to_string())]
}

fn css() -> CssMetadataConfig {
    CssMetadataConfig {
        blank: table("blank"),
        red: table("red"),
        yellow: table("yellow"),
        green: table("green"),
    }
}

#[test]
fn exit_zero_is_green_with_green_metadata() {
    let o = RawOutcome::exited(0, 100, 25);
    let s = classify(&o, &css(), DEFAULT_WARNING_EXIT_CODE);
    assert!(matches!(s.status, StatusState::Green));
    assert_eq!(s.code, 0);
    assert_eq!(s.metadata, table("green"));
    assert_eq!(s.description, "check passed");
}

#[test]
fn warning_exit_code_is_yellow() {
    let o = RawOutcome::exited(1, 0, 10);
    let s = classify(&o, &css(), DEFAULT_WARNING_EXIT_CODE);
    assert!(matches!(s.status, StatusState::Yellow));
    assert_eq!(s.code, 1);
    assert_eq!(s.metadata, table("yellow"));
}

#[test]
fn configured_warning_code_moves_the_boundary() {
    let o3 = RawOutcome::exited(3, 0, 10);
    let s3 = classify(&o3, &css(), 3);
    assert!(matches!(s3.status, StatusState::Yellow));
    let o1 = RawOutcome::exited(1, 0, 10);
    let s1 = classify(&o1, &css(), 3);
    assert!(matches!(s1.status, StatusState::Red));
}

#[test]
fn other_nonzero_exit_codes_are_red() {
    let o = RawOutcome::exited(2, 0, 10);
    let s = classify(&o, &css(), DEFAULT_WARNING_EXIT_CODE);
    assert!(matches!(s.status, StatusState::Red));
    assert_eq!(s.code, 2);
    assert_eq!(s.metadata, table("red"));
}

#[test]
fn timeout_is_red_with_timeout_sentinel() {
    let o = RawOutcome::after_timeout(500, 2000);
    assert!(o.timed_out);
    assert_eq!(o.duration_ms, 2000);
    let s = classify(&o, &css(), DEFAULT_WARNING_EXIT_CODE);
    assert!(matches!(s.status, StatusState::Red));
    assert_eq!(s.code, TIMEOUT_EXIT_CODE);
    assert!(s.description.contains("timed out"));
}

#[test]
fn spawn_failure_is_red_with_its_own_sentinel_and_distinct_text() {
    let o = RawOutcome::after_spawn_failure(500, "no such file".to_string());
    let s = classify(&o, &css(), DEFAULT_WARNING_EXIT_CODE);
    assert!(matches!(s.status, StatusState::Red));
    assert_eq!(s.code, SPAWN_FAILURE_EXIT_CODE);
    assert!(s.description.contains("could not be started"));
    assert!(s.description.contains("no such file"));

    let t = classify(
        &RawOutcome::after_timeout(500, 2000),
        &css(),
        DEFAULT_WARNING_EXIT_CODE,
    );
    assert_ne!(s.description, t.description);
    assert_ne!(s.code, t.code);
}

#[test]
fn classification_is_pure() {
    let o = RawOutcome::exited(7, 42, 13);
    let c = css();
    let a = classify(&o, &c, DEFAULT_WARNING_EXIT_CODE);
    let b = classify(&o, &c, DEFAULT_WARNING_EXIT_CODE);
    assert_eq!(a.code, b.code);
    assert_eq!(a.description, b.description);
    assert_eq!(a.metadata, b.metadata);
    assert!(matches!(a.status, StatusState::Red));
    assert!(matches!(b.status, StatusState::Red));
}
