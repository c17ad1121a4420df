use meeting_desk::export::{
    append_minutes_sections, build_export_document, format_timestamp, pdf_tokens,
    split_plain_transcript, statement_section, trim_end_matches_str, ExportBlock, ExportContent,
    ExportFormat,
};
use meeting_desk::minutes::model::{
    ActionItem, ContentType, MeetingMinutes, MeetingTime, SupportedStatement, TitleSource, Topic,
};
use meeting_desk::minutes::transcript::{Transcript, TranscriptSegment};

fn fixture_minutes() -> MeetingMinutes {
    MeetingMinutes {
        schema_version: "1.0.0".to_string(),
        content_type: ContentType::Meeting,
        title: Some("产品交付讨论".to_string()),
        title_source: TitleSource::Generated,
        meeting_time: MeetingTime {
            start_at: Some("2026-08-17T09:00:00+08:00".to_string()),
            end_at: None,
        },
        participants: vec!["产品组".to_string(), "研发组".to_string()],
        summary: Some("团队确认先完成导出和应用内试听。".to_string()),
        topics: vec![Topic {
            title: "交付范围".to_string(),
            summary: Some("明确 Word、PDF 和播放器范围。".to_string()),
            evidence_segment_ids: vec!["segment-1".to_string()],
        }],
        conclusions: vec![SupportedStatement {
            content: "导出内容由用户自由组合。".to_string(),
            evidence_segment_ids: vec!["segment-1".to_string()],
        }],
        decisions: Vec::new(),
        action_items: vec![ActionItem {
            description: "完成导出验证".to_string(),
            owner: Some("研发组".to_string()),
            due_date_text: Some("本周".to_string()),
            due_date: None,
            evidence_segment_ids: vec!["segment-1".to_string()],
        }],
        risks_and_issues: Vec::new(),
    }
}

fn fixture_transcript() -> Transcript {
    Transcript {
        schema_version: "1".to_string(),
        text: "第一段".to_string(),
        language: None,
        duration_ms: None,
        segments: vec![TranscriptSegment {
            id: "segment-1".to_string(),
            start_ms: Some(5_000),
            end_ms: None,
            speaker_label: Some("说话人 A".to_string()),
            text: "第一段".to_string(),
            confidence_bits: None,
        }],
    }
}

#[test]
fn builds_selected_document_sections() {
    let transcript = fixture_transcript();
    let document = build_export_document(
        &[ExportContent::Summary, ExportContent::Transcript],
        &fixture_minutes(),
        &transcript,
    );
    assert_eq!(document.sections.len(), 2);
    assert_eq!(document.sections[0].heading, "会议摘要");
    assert_eq!(document.sections[1].heading, "逐字稿");
    assert!(document.sections[1].page_break_before);
    assert!(matches!(
        &document.sections[1].blocks[0],
        ExportBlock::Entry { label, .. } if label.contains("00:05")
    ));

    let transcript_only =
        build_export_document(&[ExportContent::Transcript], &fixture_minutes(), &transcript);
    assert!(!transcript_only.sections[0].page_break_before);
}

#[test]
fn document_metadata_lists_meeting_facts() {
    let document = build_export_document(&[], &fixture_minutes(), &fixture_transcript());
    assert_eq!(document.title, "产品交付讨论");
    assert_eq!(document.subtitle, "AI 会议纪要");
    assert_eq!(document.metadata.len(), 3);
    assert_eq!(document.metadata[0], ("内容类型".to_string(), "会议".to_string()));
    assert_eq!(
        document.metadata[1],
        ("开始时间".to_string(), "2026-08-17T09:00:00+08:00".to_string())
    );
    assert_eq!(document.metadata[2], ("参会人".to_string(), "产品组、研发组".to_string()));
    assert!(document.sections.is_empty());
}

#[test]
fn minutes_sections_follow_content_type() {
    let mut sections = Vec::new();
    append_minutes_sections(&mut sections, &fixture_minutes(), "主要议题", "关键结论");
    let headings: Vec<&str> = sections.iter().map(|s| s.heading.as_str()).collect();
    assert_eq!(headings, ["主要议题", "关键结论", "决策事项", "待办事项", "风险和问题"]);
    assert!(matches!(
        &sections[0].blocks[0],
        ExportBlock::Entry { label, text } if label == "主题 01" && text == "交付范围\n明确 Word、PDF 和播放器范围。"
    ));
    assert!(matches!(
        &sections[3].blocks[0],
        ExportBlock::Table { rows, .. } if rows[0] == ["完成导出验证", "研发组", "本周"]
    ));

    let mut speech = fixture_minutes();
    speech.content_type = ContentType::Speech;
    let mut sections = Vec::new();
    append_minutes_sections(&mut sections, &speech, "演讲脉络", "核心观点");
    let headings: Vec<&str> = sections.iter().map(|s| s.heading.as_str()).collect();
    assert_eq!(headings, ["演讲脉络", "核心观点", "待办事项"]);
}

#[test]
fn decision_entries_are_labelled_without_suffix() {
    let section = statement_section(
        "决策事项",
        &vec![SupportedStatement {
            content: "采用方案 A。".to_string(),
            evidence_segment_ids: Vec::new(),
        }],
    );
    assert!(matches!(
        &section.blocks[0],
        ExportBlock::Entry { label, .. } if label == "决策"
    ));
    assert_eq!(trim_end_matches_str("事项事项", "事项"), "");
    assert_eq!(trim_end_matches_str("关键结论", "事项"), "关键结论");
}

#[test]
fn formats_transcript_timestamps() {
    assert_eq!(format_timestamp(5_000), "00:05");
    assert_eq!(format_timestamp(65_999), "01:05");
    assert_eq!(format_timestamp(3_723_000), "01:02:03");
}

#[test]
fn splits_plain_transcript_into_paragraphs() {
    assert_eq!(split_plain_transcript("  第一行。\r\n\n第二行  "), ["第一行。", "第二行"]);
    let long = "字".repeat(179) + "。" + "尾";
    let paragraphs = split_plain_transcript(&long);
    assert_eq!(paragraphs.len(), 2);
    assert_eq!(paragraphs[0].chars().count(), 180);
    assert_eq!(paragraphs[1], "尾");
    assert!(split_plain_transcript(" \n ").is_empty());
}

#[test]
fn transcript_without_segments_uses_paragraphs() {
    let mut transcript = fixture_transcript();
    transcript.segments.clear();
    transcript.text = "  ".to_string();
    let document = build_export_document(&[ExportContent::Transcript], &fixture_minutes(), &transcript);
    assert!(matches!(
        &document.sections[0].blocks[0],
        ExportBlock::Paragraph(text) if text == "无可用逐字稿"
    ));
}

#[test]
fn tokenizes_pdf_text_without_losing_content() {
    let source = "中文ASR-v2.0 测试";
    assert_eq!(pdf_tokens(source).concat(), source);
}

#[test]
fn pdf_tokens_keep_latin_words_whole() {
    assert_eq!(
        pdf_tokens("中文ASR-v2.0 测试"),
        ["中", "文", "ASR-v2.0", " ", "测", "试"]
    );
}

#[test]
fn export_formats_have_extensions() {
    assert_eq!(ExportFormat::Docx.extension(), "docx");
    assert_eq!(ExportFormat::Pdf.extension(), "pdf");
}
