use legalminds_frontend::files::{
    chunk_total_pages, file_row, reader_buttons, reader_languages, reader_pane, translation_error_banner,
    FileReaderViewMode, ReaderButtons, ReaderPane,
};
use legalminds_frontend::models::{
    EvidenceFileChunkItem, EvidenceFileChunkListData, EvidenceFileDetail, EvidenceFileSummary,
    EvidenceFileTranslationSummary,
};

fn detail(parse_status: &str, parsed_text: Option<&str>) -> EvidenceFileDetail {
    EvidenceFileDetail {
        id: "f1".to_string(),
        case_id: "c1".to_string(),
        original_name: "a.pdf".to_string(),
        file_type: "application/pdf".to_string(),
        file_size: 10,
        storage_path: "cases/c1/a.pdf".to_string(),
        parse_status: parse_status.to_string(),
        parse_error: None,
        parsed_text: parsed_text.map(|t| t.to_string()),
        page_count: None,
        duration: None,
        translation: EvidenceFileTranslationSummary::default(),
        created_at: "2026-01-01".to_string(),
    }
}

fn chunk(translated: Option<&str>, status: &str, error: Option<&str>) -> EvidenceFileChunkItem {
    EvidenceFileChunkItem {
        id: "k1".to_string(),
        chunk_index: 0,
        page_number: 1,
        segment_number: 1,
        chunk_kind: "paragraph".to_string(),
        display_label: "Page 1 · 1".to_string(),
        source_text: None,
        translated_text: translated.map(|t| t.to_string()),
        translation_status: status.to_string(),
        translation_error: error.map(|t| t.to_string()),
        anchor_json: "{}".to_string(),
    }
}

fn list(items: Vec<EvidenceFileChunkItem>) -> Option<EvidenceFileChunkListData> {
    Some(EvidenceFileChunkListData { items, total: 1, page: 1, page_size: 1, view_mode: "bilingual".to_string() })
}

#[test]
fn chunk_pages_round_up_and_never_drop_below_one() {
    assert_eq!(chunk_total_pages(0, 1), 1);
    assert_eq!(chunk_total_pages(-5, 3), 1);
    assert_eq!(chunk_total_pages(7, 1), 7);
    assert_eq!(chunk_total_pages(7, 3), 3);
    assert_eq!(chunk_total_pages(9, 3), 3);
}

#[test]
fn reader_names_languages_with_defaults() {
    let mut t = EvidenceFileTranslationSummary::default();
    assert_eq!(reader_languages(&t), ("-".to_string(), "zh-CN".to_string()));
    t.source_language = Some("en".to_string());
    t.target_language = Some("zh-TW".to_string());
    assert_eq!(reader_languages(&t), ("en".to_string(), "zh-TW".to_string()));
}

#[test]
fn translation_error_shows_only_when_not_blank() {
    let mut t = EvidenceFileTranslationSummary::default();
    assert_eq!(translation_error_banner(&t), None);
    t.translation_error = Some("  ".to_string());
    assert_eq!(translation_error_banner(&t), None);
    t.translation_error = Some("quota".to_string());
    assert_eq!(translation_error_banner(&t), Some("quota".to_string()));
}

#[test]
fn reader_buttons_need_a_parsed_file() {
    assert_eq!(
        reader_buttons("processing", true, 1, 3),
        ReaderButtons { parsed_json: false, retry_translation: false, prev_chunk: false, next_chunk: true }
    );
    assert_eq!(
        reader_buttons("done", false, 3, 3),
        ReaderButtons { parsed_json: true, retry_translation: false, prev_chunk: true, next_chunk: false }
    );
    assert!(reader_buttons("done", true, 2, 3).retry_translation);
}

#[test]
fn reader_waits_for_parsing_and_falls_back_without_chunks() {
    let mode = FileReaderViewMode::Bilingual;
    assert_eq!(reader_pane(&detail("processing", None), 4, &None, mode), ReaderPane::Waiting);
    assert_eq!(
        reader_pane(&detail("done", Some("plain")), 0, &None, mode),
        ReaderPane::Legacy { parsed_text: Some("plain".to_string()) }
    );
    assert_eq!(reader_pane(&detail("done", None), 2, &None, mode), ReaderPane::Loading);
    assert_eq!(reader_pane(&detail("done", None), 2, &list(vec![]), mode), ReaderPane::Empty);
}

#[test]
fn reader_shows_the_chunk_by_view_mode() {
    let d = detail("done", None);
    let items = list(vec![chunk(None, "failed", Some("timeout"))]);
    assert_eq!(
        reader_pane(&d, 1, &items, FileReaderViewMode::Bilingual),
        ReaderPane::Chunk {
            label: "Page 1 · 1".to_string(),
            kind: "paragraph".to_string(),
            error: Some("timeout".to_string()),
            original: Some(String::new()),
            chinese: Some("翻译失败，可重试".to_string()),
        }
    );
    let items = list(vec![chunk(Some("译文"), "done", Some("old"))]);
    assert_eq!(
        reader_pane(&d, 1, &items, FileReaderViewMode::Zh),
        ReaderPane::Chunk {
            label: "Page 1 · 1".to_string(),
            kind: "paragraph".to_string(),
            error: None,
            original: None,
            chinese: Some("译文".to_string()),
        }
    );
    match reader_pane(&d, 1, &items, FileReaderViewMode::Source) {
        ReaderPane::Chunk { original, chinese, .. } => {
            assert_eq!(original, Some(String::new()));
            assert_eq!(chinese, None);
        }
        other => panic!("unexpected pane {other:?}"),
    }
}

fn listed(parse_status: &str, parse_error: Option<&str>) -> EvidenceFileSummary {
    let mut translation = EvidenceFileTranslationSummary::default();
    translation.translation_status = "processing".to_string();
    translation.translation_incomplete = true;
    EvidenceFileSummary {
        id: "f1".to_string(),
        original_name: "report.pdf".to_string(),
        file_type: "application/vnd.openxmlformats-officedocument.wordprocessingml.document".to_string(),
        file_size: 10,
        storage_path: "cases/c1/report.pdf".to_string(),
        parse_status: parse_status.to_string(),
        parse_error: parse_error.map(|e| e.to_string()),
        translation,
        created_at: "2026-01-01".to_string(),
    }
}

#[test]
fn file_rows_show_failures_and_gate_their_buttons() {
    let row = file_row(&listed("failed", Some("bad scan")), &Some("f1".to_string()), true);
    assert!(row.selected);
    assert_eq!(row.open_label, "Reading");
    assert_eq!(row.error, Some("bad scan".to_string()));
    assert_eq!(row.file_type, "application/vnd.openxmlformats-officedoc...");
    assert!(!row.can_open_reader && !row.can_download_parsed);
    assert!(row.can_reparse);
    assert!(row.building);
    assert_eq!(row.parsed_name, "report.json");
}

#[test]
fn processing_files_cannot_be_reparsed() {
    let row = file_row(&listed("processing", Some("old")), &None, true);
    assert!(!row.selected);
    assert_eq!(row.open_label, "Open Reader");
    assert_eq!(row.error, None);
    assert!(!row.can_reparse);
    let row = file_row(&listed("done", None), &Some("f2".to_string()), false);
    assert!(row.can_open_reader && row.can_download_parsed && !row.can_reparse);
}
