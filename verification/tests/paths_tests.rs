use legalminds_frontend::paths::{
    evidence_list_export_path, export_download_path, file_download_path, file_parsed_path,
    logs_export_csv_path, logs_export_excel_path, logs_query, timeline_export_path,
    timeline_report_path,
};

#[test]
fn logs_query_shapes_and_encodes_filters() {
    assert_eq!(logs_query(1, 20, "", "", "", ""), "page=1&page_size=20");
    assert_eq!(
        logs_query(2, 50, " c 1 ", " create ", " Timeline ", " 付款 "),
        "page=2&page_size=50&case_id=c%201&action=CREATE&module=timeline&keyword=%E4%BB%98%E6%AC%BE"
    );
    assert_eq!(logs_query(-1, 0, "  ", "x", "  ", ""), "page=-1&page_size=0&action=X");
}

#[test]
fn logs_exports() {
    assert_eq!(logs_export_csv_path("  "), "/api/v1/logs/export");
    assert_eq!(logs_export_csv_path(" c/1 "), "/api/v1/logs/export?case_id=c%2F1");
    assert_eq!(logs_export_excel_path(""), "/api/v1/logs/export?format=excel");
    assert_eq!(logs_export_excel_path("c1"), "/api/v1/logs/export?format=excel&case_id=c1");
}

#[test]
fn case_exports() {
    assert_eq!(evidence_list_export_path("c1"), "/api/v1/cases/c1/exports/evidence-list");
    assert_eq!(
        timeline_export_path("c1", "2024-01-01", " "),
        "/api/v1/cases/c1/exports/timeline?format=png&start_date=2024-01-01"
    );
    assert_eq!(
        timeline_report_path("c1", "pdf", " 2024-01-01", "2024-02-01"),
        "/api/v1/cases/c1/exports/timeline-report?format=pdf&start_date= 2024-01-01&end_date=2024-02-01"
    );
    assert_eq!(timeline_report_path("c1", "html", "", ""), "/api/v1/cases/c1/exports/timeline-report?format=html");
    assert_eq!(export_download_path("c1", "e9"), "/api/v1/cases/c1/exports/e9/download");
}

#[test]
fn file_downloads() {
    assert_eq!(file_download_path("f1"), "/api/v1/files/f1/download");
    assert_eq!(file_parsed_path("f1"), "/api/v1/files/f1/parsed");
}
