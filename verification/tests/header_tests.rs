use legalminds_frontend::header::{
    case_role_badge, ctx_user_line, current_case_label, initials_of, operator_initials,
};
use legalminds_frontend::models::UserInfo;

#[test]
fn case_label_shortens_long_ids() {
    assert_eq!(current_case_label("  "), "No case selected");
    assert_eq!(current_case_label(" 123456789abc "), "Case 123456789abc");
    assert_eq!(current_case_label("0123456789abcdef"), "Case 0123456789abcdef");
    assert_eq!(current_case_label("0123456789abcdefXYZ"), "Case 0123456789ab");
}

#[test]
fn initials_come_from_alphanumeric_characters() {
    assert_eq!(operator_initials("analyst"), "AN");
    assert_eq!(operator_initials("a"), "AA");
    assert_eq!(operator_initials("--"), "LL");
    assert_eq!(operator_initials("j. doe"), "JD");
    assert_eq!(operator_initials("é1"), "é1");
    assert_eq!(initials_of(&vec!['x']), "XX");
    assert_eq!(initials_of(&vec![]), "LL");
}

#[test]
fn role_badges() {
    assert_eq!(case_role_badge(Some("owner"), false), ("Owner", "badge badge--ok"));
    assert_eq!(case_role_badge(Some("member"), false), ("Member", "badge badge--run"));
    assert_eq!(case_role_badge(Some("viewer"), false), ("Viewer", "badge badge--warn"));
    assert_eq!(case_role_badge(Some("auditor"), false), ("Case role", "badge"));
    assert_eq!(case_role_badge(None, false), ("No case role", "badge"));
    assert_eq!(case_role_badge(Some("owner"), true), ("Loading role", "badge badge--run"));
}

fn user(roles: &[&str]) -> UserInfo {
    UserInfo {
        id: "u1".to_string(),
        username: "amy".to_string(),
        email: "amy@example.com".to_string(),
        real_name: None,
        roles: roles.iter().map(|r| r.to_string()).collect(),
    }
}

#[test]
fn signed_in_line() {
    assert_eq!(ctx_user_line(Some(user(&["admin", "lawyer"]))), Some("Signed in: amy [admin,lawyer]".to_string()));
    assert_eq!(ctx_user_line(Some(user(&[]))), Some("Signed in: amy".to_string()));
    assert_eq!(ctx_user_line(None), None);
}
