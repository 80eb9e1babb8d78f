//! The session decisions of the application: what the answer of a session
//! check changes, the sign-in state it gives, when the case role is loaded,
//! what applying a typed token does, and the session texts of the header.
use crate::header::{ctx_user_line, user_line};
use crate::models::UserInfo;
use crate::shell::{auth_gate_for, auth_gate_text, opt_view, AuthGate, ShellState, Tab};
use crate::text::{blank, byte_len, chars_of, is_blank, measure_bytes, owned, push_str, trim, trimmed};
use vstd::prelude::*;

verus! {

/// What the check of the active token answered.
#[derive(Clone, Debug, PartialEq)]
pub enum SessionCheck {
    /// The check has not answered yet.
    Pending,
    /// There was no token to check.
    NoToken,
    Verified { user: UserInfo },
    Failed { error: String },
}

/// What happens to the signed-in user.
#[derive(Clone, Debug, PartialEq)]
pub enum UserChange {
    Keep,
    Clear,
    Replace { user: UserInfo },
}

/// What the answer of a session check changes: the user, and the status line
/// when there is a new one.
#[derive(Clone, Debug, PartialEq)]
pub struct SessionUpdate {
    pub user: UserChange,
    pub status: Option<String>,
}

/// While the check is pending, the user is cleared only without a token; no
/// token clears it; a verified session sets it and says so; a failed check
/// clears it and gives the error.
pub open spec fn session_effect(check: SessionCheck, active_token: Seq<char>) -> (UserChange, Option<Seq<char>>) {
    match check {
        SessionCheck::Pending => (
            if is_blank(active_token) {
                UserChange::Clear
            } else {
                UserChange::Keep
            },
            None,
        ),
        SessionCheck::NoToken => (UserChange::Clear, None),
        SessionCheck::Verified { user } => (
            UserChange::Replace { user },
            Some("Session verified for "@ + user.username@),
        ),
        SessionCheck::Failed { error } => (
            UserChange::Clear,
            Some("Session verification failed: "@ + error@),
        ),
    }
}

pub fn session_update(check: SessionCheck, active_token: &str) -> (r: SessionUpdate)
    ensures
        (r.user, opt_view(r.status)) == session_effect(check, active_token@),
{
    match check {
        SessionCheck::Pending => SessionUpdate {
            user: if blank(active_token) {
                UserChange::Clear
            } else {
                UserChange::Keep
            },
            status: None,
        },
        SessionCheck::NoToken => SessionUpdate { user: UserChange::Clear, status: None },
        SessionCheck::Verified { user } => {
            let mut s = owned("Session verified for ");
            push_str(&mut s, user.username.as_str());
            SessionUpdate { user: UserChange::Replace { user }, status: Some(s) }
        },
        SessionCheck::Failed { error } => {
            let mut s = owned("Session verification failed: ");
            push_str(&mut s, error.as_str());
            SessionUpdate { user: UserChange::Clear, status: Some(s) }
        },
    }
}

/// The sign-in state: verifying while a token's check is pending, ready once
/// it is verified.
pub open spec fn session_gate_for(active_token: Seq<char>, check: SessionCheck) -> AuthGate {
    auth_gate_for(
        active_token,
        !is_blank(active_token) && check is Pending,
        check is Verified,
    )
}

pub fn session_gate(active_token: &str, check: &SessionCheck) -> (r: AuthGate)
    ensures
        r == session_gate_for(active_token@, *check),
{
    let verifying = !blank(active_token) && match check {
        SessionCheck::Pending => true,
        _ => false,
    };
    let verified = match check {
        SessionCheck::Verified { .. } => true,
        _ => false,
    };
    crate::shell::derive_auth_gate(active_token, verifying, verified)
}

/// The case role is loaded only for a verified session with a token and a
/// case id of at least 32 bytes (trimmed).
pub open spec fn case_role_wanted(check: SessionCheck, active_token: Seq<char>, case_id: Seq<char>) -> bool {
    check is Verified && !is_blank(active_token) && byte_len(trim(case_id)) >= 32
}

pub fn should_load_case_role(check: &SessionCheck, active_token: &str, case_id: &str) -> (r: bool)
    ensures
        r == case_role_wanted(*check, active_token@, case_id@),
{
    let verified = match check {
        SessionCheck::Verified { .. } => true,
        _ => false,
    };
    if !verified || blank(active_token) {
        return false;
    }
    let v = chars_of(trimmed(case_id).as_str());
    let (fits, _) = measure_bytes(&v, 31);
    !fits
}

/// The session line of the header: the signed-in line when a user is known,
/// else one for the sign-in state.
pub open spec fn session_text(u: Option<UserInfo>, gate: AuthGate) -> Seq<char> {
    match user_line(u) {
        Some(line) => line,
        None => match gate {
            AuthGate::Ready => "Signed in with verified session"@,
            AuthGate::Verifying => "Waiting for /auth/me verification"@,
            AuthGate::SignedOut => "No active session"@,
        },
    }
}

pub fn session_line(u: Option<UserInfo>, gate: AuthGate) -> (r: String)
    ensures
        r@ == session_text(u, gate),
{
    match ctx_user_line(u) {
        Some(line) => line,
        None => match gate {
            AuthGate::Ready => owned("Signed in with verified session"),
            AuthGate::Verifying => owned("Waiting for /auth/me verification"),
            AuthGate::SignedOut => owned("No active session"),
        },
    }
}

/// The badge of the sign-in state: its label and class.
pub open spec fn gate_badge(gate: AuthGate) -> (Seq<char>, Seq<char>) {
    (
        auth_gate_text(gate),
        match gate {
            AuthGate::SignedOut => "badge"@,
            AuthGate::Verifying => "badge badge--run"@,
            AuthGate::Ready => "badge badge--ok"@,
        },
    )
}

pub fn auth_gate_badge(gate: AuthGate) -> (r: (&'static str, &'static str))
    ensures
        (r.0@, r.1@) == gate_badge(gate),
{
    let label = crate::shell::auth_gate_label(gate);
    match gate {
        AuthGate::SignedOut => (label, "badge"),
        AuthGate::Verifying => (label, "badge badge--run"),
        AuthGate::Ready => (label, "badge badge--ok"),
    }
}

/// What applying the typed token does: the new active token, whether the
/// session is checked again, and the status line.
#[derive(Clone, Debug, PartialEq)]
pub struct TokenApplication {
    pub token: String,
    pub verify: bool,
    pub status: &'static str,
}

/// A blank draft clears the active token; another one becomes the active
/// token, trimmed, and is checked.
pub open spec fn token_applied(draft: Seq<char>) -> (Seq<char>, bool, Seq<char>) {
    if is_blank(draft) {
        (Seq::empty(), false, "Cleared active access token"@)
    } else {
        (trim(draft), true, "Verifying session via /auth/me..."@)
    }
}

pub fn apply_token_draft(draft: &str) -> (r: TokenApplication)
    ensures
        (r.token@, r.verify, r.status@) == token_applied(draft@),
{
    if blank(draft) {
        TokenApplication { token: String::new(), verify: false, status: "Cleared active access token" }
    } else {
        TokenApplication {
            token: trimmed(draft),
            verify: true,
            status: "Verifying session via /auth/me...",
        }
    }
}

/// The shell state the header and the workspace are built from.
pub open spec fn shell_state_of(
    connected: bool,
    case_id: Seq<char>,
    role_in_case: Option<Seq<char>>,
    active_tab: Tab,
    user: Option<UserInfo>,
) -> (bool, bool, Option<Seq<char>>, Tab, Option<Seq<char>>) {
    (
        connected,
        !is_blank(case_id),
        role_in_case,
        active_tab,
        match user {
            Some(u) => Some(u.username@),
            None => None,
        },
    )
}

pub fn shell_state_for(
    connected: bool,
    case_id: &str,
    role_in_case: Option<String>,
    active_tab: Tab,
    user: &Option<UserInfo>,
) -> (r: ShellState)
    ensures
        (r.signed_in, r.has_case, opt_view(r.role_in_case), r.active_tab, opt_view(r.username))
            == shell_state_of(connected, case_id@, opt_view(role_in_case), active_tab, *user),
{
    ShellState {
        signed_in: connected,
        has_case: !blank(case_id),
        role_in_case,
        active_tab,
        username: match user {
            Some(u) => Some(u.username.clone()),
            None => None,
        },
    }
}

/// An account to register, with the fields as the server gets them.
#[derive(Clone, Debug, PartialEq)]
pub struct Registration {
    pub username: String,
    pub email: String,
    pub password: String,
    pub real_name: Option<String>,
}

/// "Register": the trimmed username and email, which are required, the
/// password as typed, and the trimmed real name unless it is blank.
pub fn plan_register(username: &str, email: &str, password: &str, real_name: &str) -> (r: Result<Registration, String>)
    ensures
        match r {
            Ok(reg) => {
                &&& !is_blank(username@) && !is_blank(email@)
                &&& reg.username@ == trim(username@)
                &&& reg.email@ == trim(email@)
                &&& reg.password@ == password@
                &&& opt_view(reg.real_name) == (if is_blank(real_name@) {
                    None
                } else {
                    Some(trim(real_name@))
                })
            },
            Err(m) => (is_blank(username@) || is_blank(email@)) && m@ == "username/email required"@,
        },
{
    if blank(username) || blank(email) {
        return Err(owned("username/email required"));
    }
    let given_name = if blank(real_name) {
        None
    } else {
        Some(trimmed(real_name))
    };
    Ok(Registration { username: trimmed(username), email: trimmed(email), password: owned(password), real_name: given_name })
}

/// "Me": with an active token the session is checked again; the status line
/// says which.
pub open spec fn recheck_of(token: Seq<char>) -> (bool, Seq<char>) {
    if is_blank(token) {
        (false, "Missing active access token"@)
    } else {
        (true, "Revalidating session via /auth/me..."@)
    }
}

pub fn recheck_session(token: &str) -> (r: (bool, &'static str))
    ensures
        (r.0, r.1@) == recheck_of(token@),
{
    if blank(token) {
        (false, "Missing active access token")
    } else {
        (true, "Revalidating session via /auth/me...")
    }
}

} // verus!
