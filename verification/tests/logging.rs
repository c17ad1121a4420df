use meeting_desk::logging::{
    expired_log_names, log_file_name_for, parse_managed_log_date, replace_controls,
    sanitize_log_message, LOG_RETENTION_DAYS, REDACTED_VALUE,
};

fn names(values: &[&str]) -> Vec<String> {
    values.iter().map(|value| value.to_string()).collect()
}

#[test]
fn daily_log_file_name_uses_calendar_date() {
    assert_eq!(
        log_file_name_for((2026, 8, 14)).as_deref(),
        Some("MeetingDesk-2026-08-14.log")
    );
    assert_eq!(log_file_name_for((2026, 2, 30)), None);
}

#[test]
fn cleanup_keeps_today_and_previous_fourteen_days() {
    assert_eq!(LOG_RETENTION_DAYS, 15);
    let mut files: Vec<String> = (1..=14)
        .map(|day| log_file_name_for((2026, 8, day)).expect("valid date"))
        .collect();
    files.extend(names(&[
        "MeetingDesk-2026-07-31.log",
        "MeetingDesk-2026-07-30.log",
        "MeetingDesk-2026-07-29.log",
    ]));
    assert_eq!(
        expired_log_names(&files, (2026, 8, 14)),
        names(&["MeetingDesk-2026-07-30.log", "MeetingDesk-2026-07-29.log"])
    );
}

#[test]
fn cleanup_does_not_delete_unmanaged_entries() {
    let files = names(&[
        "support-notes.txt",
        "MeetingDesk-2026-8-1.log",
        "MeetingDesk.log",
        "MeetingDesk-2020-01-01.log",
    ]);
    assert_eq!(
        expired_log_names(&files, (2026, 8, 14)),
        names(&["MeetingDesk-2020-01-01.log"])
    );
}

#[test]
fn cleanup_is_idempotent() {
    let files = names(&["MeetingDesk-2026-07-15.log", "MeetingDesk-2026-08-14.log"]);
    let expired = expired_log_names(&files, (2026, 8, 14));
    assert_eq!(expired, names(&["MeetingDesk-2026-07-15.log"]));
    let remaining: Vec<String> = files.into_iter().filter(|f| !expired.contains(f)).collect();
    assert!(expired_log_names(&remaining, (2026, 8, 14)).is_empty());
}

#[test]
fn managed_log_names_must_be_exact() {
    assert_eq!(parse_managed_log_date("MeetingDesk-2026-08-14.log"), Some((2026, 8, 14)));
    assert_eq!(parse_managed_log_date("MeetingDesk-2026-02-30.log"), None);
    assert_eq!(parse_managed_log_date("MeetingDesk-2026-08-14.log.bak"), None);
    assert_eq!(parse_managed_log_date("meetingdesk-2026-08-14.log"), None);
}

#[test]
fn sanitizer_redacts_credentials_and_authorization_headers() {
    let message = "api_key=secret-one token:secret-two Authorization: Bearer abc.def Cookie=session=value password='secret-three'";

    let sanitized = sanitize_log_message(message);

    assert!(!sanitized.contains("secret-one"));
    assert!(!sanitized.contains("secret-two"));
    assert!(!sanitized.contains("abc.def"));
    assert!(!sanitized.contains("session=value"));
    assert!(!sanitized.contains("secret-three"));
    assert!(sanitized.contains("[REDACTED]"));
}

#[test]
fn sanitizer_redacts_complete_cookie_and_authorization_headers() {
    let cookie = sanitize_log_message("Cookie: session=secret-one; refresh=secret-two");
    let authorization = sanitize_log_message("Authorization: Basic secret-three==");

    assert!(!cookie.contains("secret-one"));
    assert!(!cookie.contains("secret-two"));
    assert!(!authorization.contains("secret-three"));
    assert!(cookie.ends_with(REDACTED_VALUE));
    assert!(authorization.ends_with(REDACTED_VALUE));
}

#[test]
fn sanitizer_redacts_windows_paths_but_preserves_safe_diagnostics() {
    let message = r#"task_id=task-123 error_code=provider_timeout duration_ms=4200 source_path=\"C:\Users\Alice Zhang\meeting.mp3\" model_path=D:\models\speech\model.pt"#;

    let sanitized = sanitize_log_message(message);

    assert!(!sanitized.contains("Alice Zhang"));
    assert!(!sanitized.contains("D:\\models"));
    assert!(sanitized.contains("task_id=task-123"));
    assert!(sanitized.contains("error_code=provider_timeout"));
    assert!(sanitized.contains("duration_ms=4200"));
}

#[test]
fn sanitizer_prevents_multiline_log_injection() {
    let sanitized = sanitize_log_message("model=safe-model\r\n[ERROR] forged-entry\tcode=bad");

    assert!(!sanitized.contains('\r'));
    assert!(!sanitized.contains('\n'));
    assert!(!sanitized.contains('\t'));
    assert!(sanitized.contains("model=safe-model"));
    assert!(sanitized.contains("code=bad"));
}

#[test]
fn control_characters_become_spaces() {
    assert_eq!(replace_controls("a\u{7}b\u{85}c"), "a b c");
}
