use legalminds_frontend::api::{
    build_search_url, build_upload_multipart, build_url, filename_from_content_disposition,
    get_case_files_url, get_file_chunks_url, get_timeline_nodes_url, sanitize_filename,
    sanitize_upload_filename, truncate,
};

#[test]
fn search_language_mode_toggle_updates_request() {
    let base = "http://localhost:8080";
    let url_zh = build_search_url(base, "alpha", None, None, Some("zh"), 1, 20);
    let url_src = build_search_url(base, "alpha", None, None, Some("source"), 1, 20);

    assert!(url_zh.contains("language_mode=zh"));
    assert!(url_src.contains("language_mode=source"));
    assert_ne!(url_zh, url_src);
}

#[test]
fn build_url_joins_base_and_path() {
    assert_eq!(build_url(" http://h/ ", "/x"), "http://h/x");
    assert_eq!(build_url("http://h//", "a/b"), "http://h/a/b");
    assert_eq!(build_url("   ", "rel/path"), "rel/path");
    assert_eq!(build_url("http://h", ""), "http://h/");
}

#[test]
fn search_url_orders_clamps_and_encodes_its_parameters() {
    let url = build_search_url("http://h", " a b&ç ", None, Some("c 1"), None, 0, 500);
    assert_eq!(
        url,
        "http://h/api/v1/search?keyword=a%20b%26%C3%A7&page=1&page_size=200&case_id=c%201"
    );
    let url = build_search_url("http://h", "k", Some(" case,node "), Some("  "), Some(" zh "), 3, 0);
    assert_eq!(
        url,
        "http://h/api/v1/search?keyword=k&page=3&page_size=1&language_mode=zh&object_types=case%2Cnode"
    );
}

#[test]
fn path_urls_keep_their_numbers() {
    assert_eq!(
        get_case_files_url("http://h", "c1", 2, 10),
        "http://h/api/v1/cases/c1/files?page=2&page_size=10"
    );
    assert_eq!(
        get_case_files_url("http://h/", "c1", -3, 0),
        "http://h/api/v1/cases/c1/files?page=-3&page_size=0"
    );
}

#[test]
fn query_urls_drop_blank_options() {
    assert_eq!(
        get_timeline_nodes_url("http://h", "c1", Some(" 2024-01-01 "), Some(""), Some("a,b"), 0, 1000),
        "http://h/api/v1/cases/c1/timeline/nodes?page=1&page_size=500&start_date=2024-01-01&tags=a%2Cb"
    );
    assert_eq!(
        get_file_chunks_url("http://h", "f1", 2, 50, Some("zh")),
        "http://h/api/v1/files/f1/chunks?page=2&page_size=50&view_mode=zh"
    );
    assert_eq!(
        get_file_chunks_url("http://h", "f1", 1, 999, None),
        "http://h/api/v1/files/f1/chunks?page=1&page_size=200"
    );
}

#[test]
fn content_disposition_gives_the_file_name() {
    assert_eq!(
        filename_from_content_disposition("attachment; filename=\"report.pdf\""),
        Some("report.pdf".to_string())
    );
    assert_eq!(
        filename_from_content_disposition("attachment; FILENAME= a.txt ; size=3"),
        Some("a.txt".to_string())
    );
    assert_eq!(filename_from_content_disposition("inline"), None);
    assert_eq!(filename_from_content_disposition("attachment; filename=\"\""), None);
}

#[test]
fn byte_truncation_appends_ellipsis() {
    assert_eq!(truncate("abcdef", 3), "abc...");
    assert_eq!(truncate("abc", 3), "abc");
    assert_eq!(truncate("héllo", 3), "hé...");
}

#[test]
fn download_names_lose_path_characters() {
    assert_eq!(sanitize_filename("a/b\\c\"d"), "a_b_c_d");
    assert_eq!(sanitize_filename("  "), "download");
    assert_eq!(sanitize_upload_filename("a\r\nb\"c\\d"), "a__b_c_d");
    assert_eq!(sanitize_upload_filename("x/y"), "x/y");
    assert_eq!(sanitize_upload_filename(" \n "), " _ ");
    assert_eq!(sanitize_upload_filename("   "), "upload.bin");
}

#[test]
fn multipart_body_frames_the_file() {
    let body = build_upload_multipart("BND", "f\".txt", b"hi");
    let expected: &[u8] = b"--BND\r\nContent-Disposition: form-data; name=\"file\"; filename=\"f_.txt\"\r\nContent-Type: application/octet-stream\r\n\r\nhi\r\n--BND--\r\n";
    assert_eq!(body, expected.to_vec());
}
