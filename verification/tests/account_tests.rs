use legalminds_frontend::labels::{composer_ready, conversation_speaker};
use legalminds_frontend::session::{plan_register, recheck_session, Registration};

#[test]
fn register_needs_username_and_email() {
    assert_eq!(plan_register(" ", "a@b.c", "pw", ""), Err("username/email required".to_string()));
    assert_eq!(plan_register("ann", "", "pw", ""), Err("username/email required".to_string()));
}

#[test]
fn register_trims_fields_but_keeps_the_password() {
    assert_eq!(
        plan_register(" ann ", " a@b.c ", " pw ", "  "),
        Ok(Registration {
            username: "ann".to_string(),
            email: "a@b.c".to_string(),
            password: " pw ".to_string(),
            real_name: None,
        })
    );
    assert_eq!(plan_register("ann", "a@b.c", "pw", " Ann Lee ").unwrap().real_name, Some("Ann Lee".to_string()));
}

#[test]
fn recheck_needs_an_active_token() {
    assert_eq!(recheck_session("  "), (false, "Missing active access token"));
    assert_eq!(recheck_session("t"), (true, "Revalidating session via /auth/me..."));
}

#[test]
fn conversation_alternates_user_and_workspace() {
    assert_eq!(conversation_speaker(0), "User");
    assert_eq!(conversation_speaker(1), "Workspace");
    assert_eq!(conversation_speaker(4), "User");
}

#[test]
fn composer_needs_text() {
    assert!(!composer_ready(" \n "));
    assert!(composer_ready(" hi "));
}
