use legalminds_frontend::files::{
    default_file_reader_view_mode, fallback_parsed_name, file_requires_polling,
    status_badge_class, translated_placeholder, truncate, FileReaderViewMode,
};
use legalminds_frontend::models::{
    EvidenceFileChunkItem, EvidenceFileSummary, EvidenceFileTranslationSummary,
};

#[test]
fn file_reader_defaults_to_bilingual_view() {
    assert_eq!(
        default_file_reader_view_mode(),
        FileReaderViewMode::Bilingual
    );
    assert_eq!(FileReaderViewMode::Bilingual.as_str(), "bilingual");
}

#[test]
fn view_modes_have_codes_and_labels() {
    assert_eq!(FileReaderViewMode::Zh.as_str(), "zh");
    assert_eq!(FileReaderViewMode::Source.as_str(), "source");
    assert_eq!(FileReaderViewMode::Bilingual.label(), "双语");
    assert_eq!(FileReaderViewMode::Source.label(), "原文");
}

fn summary(parse_status: &str, translation_status: &str) -> EvidenceFileSummary {
    let mut translation = EvidenceFileTranslationSummary::default();
    translation.translation_status = translation_status.to_string();
    EvidenceFileSummary {
        id: "f1".to_string(),
        original_name: "a.pdf".to_string(),
        file_type: "application/pdf".to_string(),
        file_size: 10,
        storage_path: "cases/1/a.pdf".to_string(),
        parse_status: parse_status.to_string(),
        parse_error: None,
        translation,
        created_at: "2026-01-01".to_string(),
    }
}

#[test]
fn files_in_progress_are_polled() {
    assert!(file_requires_polling(&summary("processing", "done")));
    assert!(file_requires_polling(&summary("done", "processing")));
    assert!(!file_requires_polling(&summary("done", "pending")));
    assert!(!file_requires_polling(&summary(" processing", "done")));
}

fn chunk(status: &str) -> EvidenceFileChunkItem {
    EvidenceFileChunkItem {
        id: "c1".to_string(),
        chunk_index: 0,
        page_number: 1,
        segment_number: 1,
        chunk_kind: "text".to_string(),
        display_label: "p1".to_string(),
        source_text: Some("x".to_string()),
        translated_text: None,
        translation_status: status.to_string(),
        translation_error: None,
        anchor_json: "{}".to_string(),
    }
}

#[test]
fn placeholder_follows_translation_status() {
    assert_eq!(translated_placeholder(&chunk(" failed ")), "翻译失败，可重试");
    assert_eq!(translated_placeholder(&chunk("pending")), "翻译中，稍后刷新");
    assert_eq!(translated_placeholder(&chunk("processing")), "翻译中，稍后刷新");
    assert_eq!(translated_placeholder(&chunk("done")), "暂无中文译文");
}

#[test]
fn badge_class_follows_status() {
    assert_eq!(status_badge_class(" done "), "badge badge--ok");
    assert_eq!(status_badge_class("failed"), "badge badge--bad");
    assert_eq!(status_badge_class("partial"), "badge badge--warn");
    assert_eq!(status_badge_class("processing"), "badge badge--run");
    assert_eq!(status_badge_class("weird"), "badge badge--warn");
}

#[test]
fn parsed_name_replaces_the_extension() {
    assert_eq!(fallback_parsed_name(" report.v2.pdf "), "report.v2.json");
    assert_eq!(fallback_parsed_name("noext"), "noext.json");
    assert_eq!(fallback_parsed_name(".pdf"), "parsed.json");
    assert_eq!(fallback_parsed_name("  "), "parsed.json");
}

#[test]
fn file_truncation_counts_bytes_and_cuts_characters() {
    assert_eq!(truncate("abcdefgh", 3), "abc...");
    assert_eq!(truncate("abc", 3), "abc");
    assert_eq!(truncate("中文字符", 6), "中文字符...");
    assert_eq!(truncate("中文", 6), "中文");
}
