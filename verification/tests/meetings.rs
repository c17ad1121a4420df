use meeting_desk::commands::tasks::TaskRecord;
use meeting_desk::domain::{TaskAction, TaskStatus};
use meeting_desk::commands::meetings::{
    meeting_matches_query, processing_duration_for_meeting,
    ensure_markdown_extension, list_minutes_templates, render_export_markdown, safe_file_stem,
    template_name, normalize_transcript,
};
use meeting_desk::json::JsonValue;
use meeting_desk::minutes::model::{ContentType, MeetingMinutes, MeetingTime, TitleSource};

fn fixture_minutes() -> MeetingMinutes {
    MeetingMinutes {
        schema_version: "1.0.0".to_string(),
        content_type: ContentType::Meeting,
        title: Some("项目/周会".to_string()),
        title_source: TitleSource::Generated,
        meeting_time: MeetingTime {
            start_at: None,
            end_at: None,
        },
        participants: Vec::new(),
        summary: Some("摘要".to_string()),
        topics: Vec::new(),
        conclusions: Vec::new(),
        decisions: Vec::new(),
        action_items: Vec::new(),
        risks_and_issues: Vec::new(),
    }
}

#[test]
fn export_contains_minutes_and_transcript() {
    let output = render_export_markdown(&fixture_minutes(), "第一句。\n第二句。");
    assert!(output.contains("## 会议摘要"));
    assert!(output.contains("## 完整逐字稿"));
    assert!(output.contains("    第一句。"));
}

#[test]
fn export_indents_every_transcript_line() {
    let output = render_export_markdown(&fixture_minutes(), "第一句。\n第二句。");
    assert!(output.ends_with("## 完整逐字稿\n\n    第一句。\n    第二句。\n"));
}

#[test]
fn sanitizes_export_file_name() {
    assert_eq!(safe_file_stem(Some("项目/周会")), "项目_周会");
}

#[test]
fn untitled_export_uses_default_stem() {
    assert_eq!(safe_file_stem(None), "会议纪要");
    assert_eq!(safe_file_stem(Some("   ")), "会议纪要");
}

#[test]
fn export_target_must_be_markdown() {
    assert!(ensure_markdown_extension(Some("MD")).is_ok());
    let error = ensure_markdown_extension(Some("txt")).expect_err("txt is refused");
    assert_eq!(error.code, "export_extension_invalid");
    assert!(ensure_markdown_extension(None).is_err());
}

#[test]
fn template_list_has_stable_names() {
    let templates = list_minutes_templates();
    assert_eq!(templates[0].id, "standard_meeting");
    assert_eq!(template_name("no_such_template"), "未知模板");
}

#[test]
fn blank_transcript_is_marked_unavailable() {
    let output = render_export_markdown(&fixture_minutes(), "  \n");
    assert!(output.ends_with("## 完整逐字稿\n\n无可用逐字稿\n"));
}

#[test]
fn search_matches_title_summary_and_transcript() {
    let title = Some("Project Review".to_string());
    let summary = Some("确认上线方案".to_string());
    assert!(meeting_matches_query(&title, &summary, "逐字稿", &None));
    assert!(meeting_matches_query(&title, &summary, "逐字稿", &Some("  review ".to_string())));
    assert!(meeting_matches_query(&title, &summary, "逐字稿", &Some("上线".to_string())));
    assert!(meeting_matches_query(&title, &summary, "包含关键词", &Some("关键词".to_string())));
    assert!(!meeting_matches_query(&title, &summary, "逐字稿", &Some("预算".to_string())));
}

#[test]
fn derives_processing_duration_from_completed_task() {
    let task = TaskRecord {
        id: "task-1".to_string(),
        artifact_id: "artifact-1".to_string(),
        batch_id: None,
        meeting_id: Some("meeting-1".to_string()),
        display_name: "sample.wav".to_string(),
        template_id: "standard_meeting".to_string(),
        status: TaskStatus::Completed,
        progress_bits: Some(1.0f64.to_bits()),
        attempt: 1,
        max_attempts: 3,
        error: None,
        created_at: "2026-07-21T01:00:00Z".to_string(),
        updated_at: "2026-07-21T01:02:03Z".to_string(),
        processing_started_at: None,
        processing_duration_ms: None,
        available_actions: vec![TaskAction::OpenMeeting],
    };

    assert_eq!(
        processing_duration_for_meeting(std::slice::from_ref(&task), "meeting-1"),
        Some(123_000)
    );
    assert_eq!(processing_duration_for_meeting(&[task], "other-meeting"), None);
}

#[test]
fn normalize_transcript_wraps_a_bare_segment_list() {
    let segment = JsonValue::Object(vec![("text".to_string(), JsonValue::String("你好".to_string()))]);
    let out = normalize_transcript("全文", JsonValue::Array(vec![segment]));
    let JsonValue::Object(entries) = out else { panic!("object expected") };
    let keys: Vec<&str> = entries.iter().map(|(k, _)| k.as_str()).collect();
    assert_eq!(keys, vec!["schemaVersion", "text", "language", "durationMs", "segments"]);
    assert!(matches!(&entries[0].1, JsonValue::String(s) if s == "1"));
    assert!(matches!(&entries[1].1, JsonValue::String(s) if s == "全文"));
    assert!(matches!(entries[2].1, JsonValue::Null));
    assert!(matches!(&entries[4].1, JsonValue::Array(items) if items.len() == 1));
}

#[test]
fn normalize_transcript_keeps_a_stored_transcript_object() {
    let stored = JsonValue::Object(vec![("text".to_string(), JsonValue::String("原文".to_string()))]);
    let out = normalize_transcript("全文", stored);
    let JsonValue::Object(entries) = out else { panic!("object expected") };
    assert_eq!(entries.len(), 1);
    assert!(matches!(&entries[0].1, JsonValue::String(s) if s == "原文"));
}

#[test]
fn normalize_transcript_replaces_other_values_with_an_empty_segment_list() {
    let out = normalize_transcript("全文", JsonValue::Null);
    let JsonValue::Object(entries) = out else { panic!("object expected") };
    assert!(matches!(&entries[4].1, JsonValue::Array(items) if items.is_empty()));
}
