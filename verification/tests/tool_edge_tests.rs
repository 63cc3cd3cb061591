use interview_tool::cmd::classify_command_output;
use interview_tool::dirs::{DirName, dir_path};
use interview_tool::errors::{ErrorKind, ToolError};

#[test]
fn successful_command_returns_stdout() {
    let r = classify_command_output(true, "listing\n".to_string(), "");
    assert_eq!(r.expect("a zero exit status must succeed"), "listing\n");
}

#[test]
fn failed_command_reports_stderr() {
    let r = classify_command_output(false, "partial".to_string(), "no such file");
    let err = r.expect_err("a non-zero exit status must fail");
    assert_eq!(err.kind, ErrorKind::Internal);
    assert!(err.message.contains("no such file"));
}

#[test]
fn directory_names_map_to_home_paths() {
    assert_eq!(dir_path(DirName::Downloads), "~/Downloads");
    assert_eq!(dir_path(DirName::Documents), "~/Documents");
}

#[test]
fn error_constructors_carry_kind_and_input() {
    let e = ToolError::not_found("id-7");
    assert_eq!(e.kind, ErrorKind::NotFound);
    assert!(e.message.contains("id-7"));

    let e = ToolError::identifier_collision();
    assert_eq!(e.kind, ErrorKind::Internal);

    let e = ToolError::file_not_found("/tmp/absent");
    assert_eq!(e.kind, ErrorKind::NotFound);
    assert!(e.message.contains("/tmp/absent"));

    let e = ToolError::invalid_text();
    assert_eq!(e.kind, ErrorKind::Internal);

    let e = ToolError::file_create_failed("/tmp/blocked");
    assert_eq!(e.kind, ErrorKind::Internal);
    assert!(e.message.contains("/tmp/blocked"));

    let e = ToolError::file_write_failed();
    assert_eq!(e.kind, ErrorKind::Internal);

    let e = ToolError::command_launch_failed("frobnicate --now");
    assert_eq!(e.kind, ErrorKind::InvalidInput);
    assert!(e.message.contains("frobnicate --now"));

    let e = ToolError::command_failed("boom");
    assert_eq!(e.kind, ErrorKind::Internal);
    assert!(e.message.contains("boom"));

    let e = ToolError::fetch_failed("http://unreachable.invalid/");
    assert_eq!(e.kind, ErrorKind::Upstream);
    assert!(e.message.contains("http://unreachable.invalid/"));

    let e = ToolError::fetch_body_not_text();
    assert_eq!(e.kind, ErrorKind::Upstream);

    let e = ToolError::lock_poisoned();
    assert_eq!(e.kind, ErrorKind::Internal);
}
