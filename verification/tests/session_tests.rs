use legalminds_frontend::models::UserInfo;
use legalminds_frontend::session::{
    apply_token_draft, auth_gate_badge, session_gate, session_line, session_update,
    shell_state_for, should_load_case_role, SessionCheck, UserChange,
};
use legalminds_frontend::shell::{AuthGate, Tab};

fn amy() -> UserInfo {
    UserInfo {
        id: "u1".to_string(),
        username: "amy".to_string(),
        email: "amy@example.com".to_string(),
        real_name: None,
        roles: vec!["lawyer".to_string()],
    }
}

#[test]
fn session_answers_change_the_user() {
    let u = session_update(SessionCheck::Verified { user: amy() }, "tok");
    assert_eq!(u.user, UserChange::Replace { user: amy() });
    assert_eq!(u.status, Some("Session verified for amy".to_string()));
    let u = session_update(SessionCheck::Failed { error: "401".to_string() }, "tok");
    assert_eq!(u.user, UserChange::Clear);
    assert_eq!(u.status, Some("Session verification failed: 401".to_string()));
    assert_eq!(session_update(SessionCheck::Pending, "tok").user, UserChange::Keep);
    assert_eq!(session_update(SessionCheck::Pending, "  ").user, UserChange::Clear);
    assert_eq!(session_update(SessionCheck::NoToken, "tok").status, None);
}

#[test]
fn sign_in_state_follows_the_check() {
    assert_eq!(session_gate("tok", &SessionCheck::Pending), AuthGate::Verifying);
    assert_eq!(session_gate("tok", &SessionCheck::Verified { user: amy() }), AuthGate::Ready);
    assert_eq!(session_gate("tok", &SessionCheck::Failed { error: "x".to_string() }), AuthGate::SignedOut);
    assert_eq!(session_gate(" ", &SessionCheck::Pending), AuthGate::SignedOut);
    assert_eq!(session_gate("", &SessionCheck::NoToken), AuthGate::SignedOut);
}

#[test]
fn case_role_needs_a_verified_session_and_a_full_case_id() {
    let id32 = "0123456789abcdef0123456789abcdef";
    let ok = SessionCheck::Verified { user: amy() };
    assert!(should_load_case_role(&ok, "tok", id32));
    assert!(should_load_case_role(&ok, "tok", &format!("  {id32} ")));
    assert!(!should_load_case_role(&ok, "tok", &id32[..31]));
    assert!(!should_load_case_role(&ok, " ", id32));
    assert!(!should_load_case_role(&SessionCheck::Pending, "tok", id32));
}

#[test]
fn header_session_texts() {
    assert_eq!(session_line(Some(amy()), AuthGate::SignedOut), "Signed in: amy [lawyer]");
    assert_eq!(session_line(None, AuthGate::Ready), "Signed in with verified session");
    assert_eq!(session_line(None, AuthGate::Verifying), "Waiting for /auth/me verification");
    assert_eq!(session_line(None, AuthGate::SignedOut), "No active session");
    assert_eq!(auth_gate_badge(AuthGate::Ready), ("Session verified", "badge badge--ok"));
    assert_eq!(auth_gate_badge(AuthGate::Verifying), ("Verifying session", "badge badge--run"));
    assert_eq!(auth_gate_badge(AuthGate::SignedOut), ("Not connected", "badge"));
}

#[test]
fn applying_a_token() {
    let a = apply_token_draft("  abc ");
    assert_eq!(a.token, "abc");
    assert!(a.verify);
    assert_eq!(a.status, "Verifying session via /auth/me...");
    let c = apply_token_draft(" ");
    assert_eq!(c.token, "");
    assert!(!c.verify);
    assert_eq!(c.status, "Cleared active access token");
}

#[test]
fn shell_state_from_the_app() {
    let s = shell_state_for(true, " c1 ", Some("owner".to_string()), Tab::Timeline, &Some(amy()));
    assert!(s.signed_in);
    assert!(s.has_case);
    assert_eq!(s.role_in_case, Some("owner".to_string()));
    assert_eq!(s.username, Some("amy".to_string()));
    let s = shell_state_for(false, "  ", None, Tab::Brief, &None);
    assert!(!s.has_case);
    assert_eq!(s.username, None);
}
