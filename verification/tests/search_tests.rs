use legalminds_frontend::search::{
    build_object_types, language_mode_label, matched_language_label, search_row, SearchHit,
    SearchLanguageMode, SearchRow,
};

#[test]
fn object_types_join_the_selected_kinds() {
    assert_eq!(build_object_types(true, false, true, false), Some("case,node".to_string()));
    assert_eq!(
        build_object_types(true, true, true, true),
        Some("case,evidence,node,person".to_string())
    );
    assert_eq!(build_object_types(false, false, false, false), None);
}

#[test]
fn language_labels() {
    assert_eq!(language_mode_label("zh"), "中文搜索");
    assert_eq!(language_mode_label("source"), "原文搜索");
    assert_eq!(language_mode_label("bilingual"), "双语搜索");
    assert_eq!(language_mode_label("other"), "搜索");
    assert_eq!(matched_language_label("translated"), "命中中文");
    assert_eq!(matched_language_label("source"), "命中原文");
    assert_eq!(matched_language_label("x"), "命中");
    assert_eq!(SearchLanguageMode::Zh.as_str(), "zh");
    assert_eq!(SearchLanguageMode::Bilingual.label(), "双语");
}

fn hit(object_type: &str) -> SearchHit {
    SearchHit {
        object_type: object_type.to_string(),
        object_id: "o1".to_string(),
        title: "contract.pdf".to_string(),
        display_label: Some("  ".to_string()),
        content: Some(" body ".to_string()),
        language_mode: Some("bilingual".to_string()),
        matched_language: Some("translated".to_string()),
        source_fallback: Some(true),
        translation_incomplete: Some(false),
        snippet_source: Some("the deal".to_string()),
        snippet_translated: Some(" ".to_string()),
        file_name: Some("contract.pdf".to_string()),
        chunk_id: Some("k7".to_string()),
    }
}

#[test]
fn evidence_rows_show_badges_snippets_and_chunk() {
    assert_eq!(
        search_row(&hit("evidence")),
        SearchRow {
            label: None,
            badges: vec!["双语搜索".to_string(), "命中中文".to_string(), "原文回退".to_string()],
            lines: vec!["原文: the deal".to_string()],
            code: "k7".to_string(),
        }
    );
    let mut h = hit("evidence");
    h.file_name = Some("scan.pdf".to_string());
    h.chunk_id = None;
    h.display_label = Some("Page 2".to_string());
    let row = search_row(&h);
    assert_eq!(row.lines, vec!["原文: the deal".to_string(), "文件: scan.pdf".to_string()]);
    assert_eq!(row.code, "o1");
    assert_eq!(row.label, Some("Page 2".to_string()));
}

#[test]
fn other_rows_show_their_content() {
    assert_eq!(
        search_row(&hit("node")),
        SearchRow { label: None, badges: vec![], lines: vec![" body ".to_string()], code: "o1".to_string() }
    );
}
