use legalminds_frontend::cases::{created_case_message, plan_create_case};
use legalminds_frontend::files::{
    parse_poll_message, plan_upload, reader_loads_chunks, upload_done_message, UploadPlan,
};
use legalminds_frontend::forms::{has_next_page, has_prev_page, prev_page, require_case, require_token};
use legalminds_frontend::persons::{
    plan_create_person, plan_delete_person, plan_link_case, plan_update_notes, PersonCall,
};
use legalminds_frontend::previews::PersonForm;
use legalminds_frontend::search::{search_request, suggestion_request, SearchLanguageMode};

fn form(name: &str) -> PersonForm {
    PersonForm {
        name: name.to_string(),
        gender: " male ".to_string(),
        phone: "".to_string(),
        email: "  ".to_string(),
        organization: "ACME".to_string(),
        position: "".to_string(),
        role_type: "other".to_string(),
        role_detail: "".to_string(),
        involved_date: " 2024-01-02 ".to_string(),
    }
}

#[test]
fn token_is_required_and_trimmed() {
    assert_eq!(require_token("   "), Err("Missing access token".to_string()));
    assert_eq!(require_token(" tok "), Ok("tok".to_string()));
}

#[test]
fn case_requests_check_token_then_case() {
    assert_eq!(require_case("", ""), Err("Missing access token".to_string()));
    assert_eq!(require_case("tok", " "), Err("Missing case_id".to_string()));
    assert_eq!(require_case(" tok", "c1 "), Ok(("tok".to_string(), "c1".to_string())));
}

#[test]
fn pager_buttons_follow_page_and_total() {
    assert!(!has_prev_page(1));
    assert!(has_prev_page(2));
    assert!(has_next_page(1, 20, 21));
    assert!(!has_next_page(2, 20, 40));
    assert!(!has_next_page(i64::MAX, i64::MAX, i64::MAX));
    assert_eq!(prev_page(3), 2);
    assert_eq!(prev_page(1), 1);
    assert_eq!(prev_page(-4), 1);
}

#[test]
fn create_person_refusals_come_in_order() {
    assert_eq!(plan_create_person("", "", &form("")), Err("Missing access token".to_string()));
    assert_eq!(plan_create_person("t", " ", &form("")), Err("Missing case_id".to_string()));
    assert_eq!(plan_create_person("t", "c", &form("  ")), Err("name required".to_string()));
}

#[test]
fn create_person_trims_and_drops_blank_fields() {
    let (token, call) = plan_create_person(" t ", " c1 ", &form(" Alice ")).unwrap();
    assert_eq!(token, "t");
    assert_eq!(
        call,
        PersonCall::Create {
            case_id: "c1".to_string(),
            name: "Alice".to_string(),
            gender: Some("male".to_string()),
            phone: None,
            email: None,
            organization: Some("ACME".to_string()),
            position: None,
            role_type: Some("other".to_string()),
            role_detail: None,
            involved_date: Some("2024-01-02".to_string()),
        }
    );
}

#[test]
fn opened_person_writes_need_a_person_then_a_token() {
    assert_eq!(plan_update_notes(None, "", "x"), Err("Select a person first".to_string()));
    assert_eq!(plan_delete_person(Some("p".to_string()), " "), Err("Missing access token".to_string()));
    assert_eq!(
        plan_update_notes(Some("p".to_string()), "t", "  "),
        Ok(("t".to_string(), PersonCall::UpdateNotes { person_id: "p".to_string(), notes: None }))
    );
    assert_eq!(
        plan_update_notes(Some("p".to_string()), "t", " note "),
        Ok((
            "t".to_string(),
            PersonCall::UpdateNotes { person_id: "p".to_string(), notes: Some("note".to_string()) }
        ))
    );
    assert_eq!(
        plan_delete_person(Some("p".to_string()), "t"),
        Ok(("t".to_string(), PersonCall::Delete { person_id: "p".to_string() }))
    );
}

#[test]
fn link_case_checks_each_field() {
    let p = || Some("p1".to_string());
    assert_eq!(plan_link_case(None, "t", "c", "r", "", ""), Err("Select a person first".to_string()));
    assert_eq!(plan_link_case(p(), "", "c", "r", "", ""), Err("Missing access token".to_string()));
    assert_eq!(plan_link_case(p(), "t", " ", "r", "", ""), Err("case_id required".to_string()));
    assert_eq!(plan_link_case(p(), "t", "c", "", "", ""), Err("role_type required".to_string()));
    assert_eq!(
        plan_link_case(p(), "t", " c2 ", " witness ", " saw it ", ""),
        Ok((
            "t".to_string(),
            PersonCall::LinkCase {
                person_id: "p1".to_string(),
                case_id: "c2".to_string(),
                role_type: "witness".to_string(),
                role_detail: Some("saw it".to_string()),
                involved_date: None,
            }
        ))
    );
}

#[test]
fn upload_checks_session_file_busy_and_size() {
    assert_eq!(plan_upload(" ", "c", Some(1), false), UploadPlan::Refused { message: "Missing access token".to_string() });
    assert_eq!(plan_upload("t", "", Some(1), false), UploadPlan::Refused { message: "Missing case_id".to_string() });
    assert_eq!(plan_upload("t", "c", None, true), UploadPlan::Refused { message: "Pick a file first".to_string() });
    assert_eq!(plan_upload("t", "c", Some(200 * 1024 * 1024), true), UploadPlan::Busy);
    assert_eq!(
        plan_upload("t", "c", Some(100 * 1024 * 1024 + 1), false),
        UploadPlan::Refused { message: "File too large (max 100MB)".to_string() }
    );
    assert_eq!(
        plan_upload(" t ", " c ", Some(100 * 1024 * 1024), false),
        UploadPlan::Send { token: "t".to_string(), case_id: "c".to_string() }
    );
}

#[test]
fn parse_poll_reports_once_the_file_settles() {
    assert_eq!(parse_poll_message("processing", "a.pdf", None), None);
    assert_eq!(parse_poll_message("done", "a.pdf", None), Some("Parsed: a.pdf".to_string()));
    assert_eq!(
        parse_poll_message("failed", "a.pdf", Some("bad".to_string())),
        Some("Parse failed: a.pdf (bad)".to_string())
    );
    assert_eq!(parse_poll_message("failed", "a.pdf", None), Some("Parse failed: a.pdf ()".to_string()));
    assert_eq!(upload_done_message("a.pdf", "pending"), "Uploaded: a.pdf (pending)");
}

#[test]
fn reader_loads_chunks_only_for_parsed_translated_files() {
    assert!(reader_loads_chunks("done", 3));
    assert!(!reader_loads_chunks("done", 0));
    assert!(!reader_loads_chunks("processing", 3));
}

#[test]
fn create_case_needs_token_and_name() {
    assert_eq!(plan_create_case(" ", "x", ""), Err("Missing access token".to_string()));
    assert_eq!(plan_create_case("t", " ", ""), Err("Case name required".to_string()));
    let c = plan_create_case("t", " Smith v Jones ", "  ").unwrap();
    assert_eq!(c.name, "Smith v Jones");
    assert_eq!(c.description, None);
    let c = plan_create_case("t", "X", " about ").unwrap();
    assert_eq!(c.description, Some("about".to_string()));
    assert_eq!(created_case_message("c9"), "Created and selected case: c9");
}

#[test]
fn search_request_needs_token_and_keyword() {
    let mode = SearchLanguageMode::Zh;
    assert!(search_request("", "k", "", true, true, true, true, true, mode).is_none());
    assert!(search_request("t", "  ", "", true, true, true, true, true, mode).is_none());
    let q = search_request(" t ", " contract ", " c1 ", true, true, false, true, false, SearchLanguageMode::Bilingual)
        .unwrap();
    assert_eq!(q.token, "t");
    assert_eq!(q.keyword, "contract");
    assert_eq!(q.object_types, Some("case,node".to_string()));
    assert_eq!(q.case_id, Some("c1".to_string()));
    assert_eq!(q.language_mode, "bilingual");
    let q = search_request("t", "k", "c1", false, false, false, false, false, mode).unwrap();
    assert_eq!(q.object_types, None);
    assert_eq!(q.case_id, None);
    let q = search_request("t", "k", "  ", true, false, false, false, true, mode).unwrap();
    assert_eq!(q.case_id, None);
    assert_eq!(q.object_types, Some("person".to_string()));
}

#[test]
fn suggestions_need_token_and_keyword() {
    assert_eq!(suggestion_request("t", " "), None);
    assert_eq!(suggestion_request(" t", " ab "), Some(("t".to_string(), "ab".to_string())));
}
