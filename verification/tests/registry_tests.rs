use std::collections::HashSet;

use interview_tool::errors::ErrorKind;
use interview_tool::registry::InstantRegistry;

#[test]
fn create_then_elapsed_is_zero() {
    let mut reg = InstantRegistry::new();
    let id = reg.create("alpha", 5_000).expect("create must succeed");
    let report = reg.elapsed(&id, 5_000).expect("a fresh identifier must resolve");
    assert_eq!(report.label, "alpha");
    assert_eq!(report.formatted, "00:00");
}

#[test]
fn create_accepts_empty_label() {
    let mut reg = InstantRegistry::new();
    let id = reg.create("", 0).expect("create must succeed");
    let report = reg.elapsed(&id, 0).expect("a fresh identifier must resolve");
    assert_eq!(report.label, "");
    assert_eq!(report.formatted, "00:00");
}

#[test]
fn create_within_same_second_still_zero() {
    let mut reg = InstantRegistry::new();
    let id = reg.create("jitter", 1_000).expect("create must succeed");
    let report = reg.elapsed(&id, 1_999).expect("a fresh identifier must resolve");
    assert_eq!(report.formatted, "00:00");
}

#[test]
fn unknown_identifier_is_not_found() {
    let reg = InstantRegistry::new();
    let err = reg.elapsed("missing-id", 42).expect_err("an unknown identifier must fail");
    assert_eq!(err.kind, ErrorKind::NotFound);
    assert!(err.message.contains("missing-id"));
}

#[test]
fn unknown_identifier_after_creates_is_not_found() {
    let mut reg = InstantRegistry::new();
    for _ in 0..10 {
        reg.create("busy", 0).expect("create must succeed");
    }
    let err = reg.elapsed("never-returned", 100).expect_err("an unknown identifier must fail");
    assert_eq!(err.kind, ErrorKind::NotFound);
    assert!(err.message.contains("never-returned"));
}

#[test]
fn thousand_creates_are_distinct() {
    let mut reg = InstantRegistry::new();
    let mut seen: HashSet<String> = HashSet::new();
    for n in 0..1000u64 {
        let id = reg.create("burst", n).expect("create must succeed");
        assert_eq!(id.len(), 36);
        assert!(seen.insert(id), "identifiers must be pairwise distinct");
    }
    assert_eq!(seen.len(), 1000);
}

#[test]
fn elapsed_is_read_only() {
    let mut reg = InstantRegistry::new();
    let id = reg.create("steady", 2_000).expect("create must succeed");
    for _ in 0..5 {
        let report = reg.elapsed(&id, 9_000).expect("the identifier must stay resolvable");
        assert_eq!(report.label, "steady");
        assert_eq!(report.formatted, "00:07");
    }
    let report = reg.elapsed(&id, 9_000).expect("the identifier must stay valid afterwards");
    assert_eq!(report.label, "steady");
}

#[test]
fn hundred_creates_each_resolvable() {
    let mut reg = InstantRegistry::new();
    let mut ids = Vec::new();
    for n in 0..100u64 {
        let label = format!("task-{}", n);
        let id = reg.create(&label, n * 10).expect("create must succeed");
        ids.push((id, label, n * 10));
    }
    for (id, label, created) in &ids {
        let report = reg.elapsed(id, *created).expect("each identifier must resolve");
        assert_eq!(&report.label, label);
        assert_eq!(report.formatted, "00:00");
    }
}

#[test]
fn end_to_end_question_scenario() {
    let mut reg = InstantRegistry::new();
    let id = reg.create("question-1", 10_000).expect("create must succeed");
    // Two seconds pass on the injected monotonic clock.
    let report = reg.elapsed(&id, 12_000).expect("the identifier must resolve");
    assert_eq!(report.label, "question-1");
    assert_eq!(report.formatted, "00:02");
}

#[test]
fn register_never_overwrites() {
    let mut reg = InstantRegistry::new();
    assert!(reg.register("fixed-id".to_string(), "first", 1_000));
    assert!(!reg.register("fixed-id".to_string(), "second", 9_000));
    let report = reg.elapsed("fixed-id", 1_000).expect("the first entry must survive");
    assert_eq!(report.label, "first");
    assert_eq!(report.formatted, "00:00");
}

#[test]
fn contains_tracks_registration() {
    let mut reg = InstantRegistry::new();
    assert!(!reg.contains("someone"));
    assert!(reg.register("someone".to_string(), "here", 0));
    assert!(reg.contains("someone"));
}

#[test]
fn elapsed_counts_whole_seconds_only() {
    let mut reg = InstantRegistry::new();
    let id = reg.create("boundary", 1_000).expect("create must succeed");
    assert_eq!(reg.elapsed(&id, 1_999).unwrap().formatted, "00:00");
    assert_eq!(reg.elapsed(&id, 2_000).unwrap().formatted, "00:01");
}

#[test]
fn elapsed_saturates_before_creation() {
    let mut reg = InstantRegistry::new();
    assert!(reg.register("early".to_string(), "clock", 5_000));
    let report = reg.elapsed("early", 4_000).expect("the identifier must resolve");
    assert_eq!(report.formatted, "00:00");
}

#[test]
fn report_lines_render() {
    let mut reg = InstantRegistry::new();
    let id = reg.create("quiz", 0).expect("create must succeed");
    let report = reg.elapsed(&id, 65_000).expect("the identifier must resolve");
    assert_eq!(report.label_line(), "instance label: quiz");
    assert_eq!(report.time_line(), "time has elapsed 01:05");
}
