//! The cases page: creating a case.
use crate::forms::token_refusal;
use crate::previews::{nonblank, nonblank_text};
use crate::shell::opt_view;
use crate::text::{blank, is_blank, owned, push_str, trim, trimmed};
use vstd::prelude::*;

verus! {

/// A case to create.
#[derive(Clone, Debug, PartialEq)]
pub struct NewCase {
    pub name: String,
    pub description: Option<String>,
}

/// Why "Create" is refused, if it is.
pub open spec fn create_case_refusal(token: Seq<char>, name: Seq<char>) -> Option<Seq<char>> {
    if token_refusal(token) is Some {
        token_refusal(token)
    } else if is_blank(name) {
        Some("Case name required"@)
    } else {
        None
    }
}

/// "Create": the trimmed name, and the trimmed description unless it is blank.
pub fn plan_create_case(token: &str, name: &str, description: &str) -> (r: Result<NewCase, String>)
    ensures
        match r {
            Ok(c) => {
                &&& create_case_refusal(token@, name@) is None
                &&& c.name@ == trim(name@)
                &&& opt_view(c.description) == nonblank(description@)
            },
            Err(m) => create_case_refusal(token@, name@) == Some(m@),
        },
{
    if blank(token) {
        return Err(owned("Missing access token"));
    }
    if blank(name) {
        return Err(owned("Case name required"));
    }
    Ok(NewCase { name: trimmed(name), description: nonblank_text(description) })
}

/// The status line once a case is created; the new case becomes the current one.
pub fn created_case_message(case_id: &str) -> (r: String)
    ensures
        r@ == "Created and selected case: "@ + case_id@,
{
    let mut out = owned("Created and selected case: ");
    push_str(&mut out, case_id);
    out
}

} // verus!
