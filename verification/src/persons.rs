//! The persons page: its form fields, and the checks each of its buttons makes
//! before the call it asks for.
use crate::forms::{case_refusal, token_refusal};
use crate::previews::{nonblank, nonblank_text, PersonForm};
use crate::shell::opt_view;
use crate::text::{blank, is_blank, owned, trim, trimmed};
use vstd::prelude::*;

verus! {

/// The trimmed text of an optional form field, or `None` when it is blank.
pub fn opt_str(raw: &str) -> (r: Option<&str>)
    ensures
        is_blank(raw@) ==> r is None,
        !is_blank(raw@) ==> r is Some && r->0@ == trim(raw@),
{
    crate::timeline::opt_str(raw)
}

/// A write the persons page sends, with its fields as the server gets them.
#[derive(Clone, Debug, PartialEq)]
pub enum PersonCall {
    Create {
        case_id: String,
        name: String,
        gender: Option<String>,
        phone: Option<String>,
        email: Option<String>,
        organization: Option<String>,
        position: Option<String>,
        role_type: Option<String>,
        role_detail: Option<String>,
        involved_date: Option<String>,
    },
    UpdateNotes { person_id: String, notes: Option<String> },
    Delete { person_id: String },
    LinkCase {
        person_id: String,
        case_id: String,
        role_type: String,
        role_detail: Option<String>,
        involved_date: Option<String>,
    },
}

/// Why a write on the opened person is refused, if it is: a person must be
/// open, then a token given.
pub open spec fn opened_person_refusal(has_person: bool, token: Seq<char>) -> Option<Seq<char>> {
    if !has_person {
        Some("Select a person first"@)
    } else {
        token_refusal(token)
    }
}

/// Why creating a person is refused, if it is.
pub open spec fn create_form_refusal(token: Seq<char>, case_id: Seq<char>, name: Seq<char>) -> Option<Seq<char>> {
    if case_refusal(token, case_id) is Some {
        case_refusal(token, case_id)
    } else if is_blank(name) {
        Some("name required"@)
    } else {
        None
    }
}

/// Why linking the opened person to another case is refused, if it is.
pub open spec fn link_form_refusal(has_person: bool, token: Seq<char>, case_id: Seq<char>, role_type: Seq<char>) -> Option<
    Seq<char>,
> {
    if opened_person_refusal(has_person, token) is Some {
        opened_person_refusal(has_person, token)
    } else if is_blank(case_id) {
        Some("case_id required"@)
    } else if is_blank(role_type) {
        Some("role_type required"@)
    } else {
        None
    }
}

/// "Create": the trimmed token, and the person to create in the current case,
/// with the trimmed name and each other field where it is not blank.
pub fn plan_create_person(token: &str, case_id: &str, form: &PersonForm) -> (r: Result<(String, PersonCall), String>)
    ensures
        match r {
            Ok((t, PersonCall::Create { case_id: c, name, gender, phone, email, organization, position, role_type, role_detail, involved_date })) => {
                &&& create_form_refusal(token@, case_id@, form.name@) is None
                &&& t@ == trim(token@)
                &&& c@ == trim(case_id@)
                &&& name@ == trim(form.name@)
                &&& opt_view(gender) == nonblank(form.gender@)
                &&& opt_view(phone) == nonblank(form.phone@)
                &&& opt_view(email) == nonblank(form.email@)
                &&& opt_view(organization) == nonblank(form.organization@)
                &&& opt_view(position) == nonblank(form.position@)
                &&& opt_view(role_type) == nonblank(form.role_type@)
                &&& opt_view(role_detail) == nonblank(form.role_detail@)
                &&& opt_view(involved_date) == nonblank(form.involved_date@)
            },
            Ok(_) => false,
            Err(m) => create_form_refusal(token@, case_id@, form.name@) == Some(m@),
        },
{
    if blank(token) {
        return Err(owned("Missing access token"));
    }
    if blank(case_id) {
        return Err(owned("Missing case_id"));
    }
    if blank(form.name.as_str()) {
        return Err(owned("name required"));
    }
    let call = PersonCall::Create {
        case_id: trimmed(case_id),
        name: trimmed(form.name.as_str()),
        gender: nonblank_text(form.gender.as_str()),
        phone: nonblank_text(form.phone.as_str()),
        email: nonblank_text(form.email.as_str()),
        organization: nonblank_text(form.organization.as_str()),
        position: nonblank_text(form.position.as_str()),
        role_type: nonblank_text(form.role_type.as_str()),
        role_detail: nonblank_text(form.role_detail.as_str()),
        involved_date: nonblank_text(form.involved_date.as_str()),
    };
    Ok((trimmed(token), call))
}

/// "Save Notes": the trimmed token, and the notes of the opened person,
/// trimmed, or cleared when blank.
pub fn plan_update_notes(person_id: Option<String>, token: &str, notes: &str) -> (r: Result<(String, PersonCall), String>)
    ensures
        match r {
            Ok((t, PersonCall::UpdateNotes { person_id: p, notes: n })) => {
                &&& opened_person_refusal(person_id is Some, token@) is None
                &&& t@ == trim(token@)
                &&& person_id == Some(p)
                &&& opt_view(n) == nonblank(notes@)
            },
            Ok(_) => false,
            Err(m) => opened_person_refusal(person_id is Some, token@) == Some(m@),
        },
{
    let pid = match person_id {
        Some(p) => p,
        None => return Err(owned("Select a person first")),
    };
    if blank(token) {
        return Err(owned("Missing access token"));
    }
    Ok((trimmed(token), PersonCall::UpdateNotes { person_id: pid, notes: nonblank_text(notes) }))
}

/// "Delete": the trimmed token, and the opened person.
pub fn plan_delete_person(person_id: Option<String>, token: &str) -> (r: Result<(String, PersonCall), String>)
    ensures
        match r {
            Ok((t, PersonCall::Delete { person_id: p })) => {
                &&& opened_person_refusal(person_id is Some, token@) is None
                &&& t@ == trim(token@)
                &&& person_id == Some(p)
            },
            Ok(_) => false,
            Err(m) => opened_person_refusal(person_id is Some, token@) == Some(m@),
        },
{
    let pid = match person_id {
        Some(p) => p,
        None => return Err(owned("Select a person first")),
    };
    if blank(token) {
        return Err(owned("Missing access token"));
    }
    Ok((trimmed(token), PersonCall::Delete { person_id: pid }))
}

/// "Link": the trimmed token, and the opened person linked to another case
/// under the trimmed case id and role, with the detail and date where given.
pub fn plan_link_case(
    person_id: Option<String>,
    token: &str,
    case_id: &str,
    role_type: &str,
    role_detail: &str,
    involved_date: &str,
) -> (r: Result<(String, PersonCall), String>)
    ensures
        match r {
            Ok((t, PersonCall::LinkCase { person_id: p, case_id: c, role_type: rt, role_detail: d, involved_date: i })) => {
                &&& link_form_refusal(person_id is Some, token@, case_id@, role_type@) is None
                &&& t@ == trim(token@)
                &&& person_id == Some(p)
                &&& c@ == trim(case_id@)
                &&& rt@ == trim(role_type@)
                &&& opt_view(d) == nonblank(role_detail@)
                &&& opt_view(i) == nonblank(involved_date@)
            },
            Ok(_) => false,
            Err(m) => link_form_refusal(person_id is Some, token@, case_id@, role_type@) == Some(m@),
        },
{
    let pid = match person_id {
        Some(p) => p,
        None => return Err(owned("Select a person first")),
    };
    if blank(token) {
        return Err(owned("Missing access token"));
    }
    if blank(case_id) {
        return Err(owned("case_id required"));
    }
    if blank(role_type) {
        return Err(owned("role_type required"));
    }
    let call = PersonCall::LinkCase {
        person_id: pid,
        case_id: trimmed(case_id),
        role_type: trimmed(role_type),
        role_detail: nonblank_text(role_detail),
        involved_date: nonblank_text(involved_date),
    };
    Ok((trimmed(token), call))
}

} // verus!
