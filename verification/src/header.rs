//! The texts of the application header: the current case, the operator's
//! initials, the case-role badge and the signed-in line.
use crate::models::UserInfo;
use crate::text::{
    ascii_upper, byte_len, upper_ascii_char, byte_prefix, chars_of, is_boundary, join, measure_bytes, owned,
    push_char, push_str, join_strings, string_of, trim, trimmed, views,
};
use vstd::prelude::*;

verus! {

// ---------------------------------------------------------------------------
// The current case
// ---------------------------------------------------------------------------

/// The header's case label: `No case selected` for a blank id, else `Case `
/// and the trimmed id, cut to its first 12 bytes when it is longer than 16.
pub open spec fn case_label(case_id: Seq<char>) -> Seq<char> {
    let t = trim(case_id);
    if t.len() == 0 {
        "No case selected"@
    } else if byte_len(t) > 16 {
        "Case "@ + byte_prefix(t, 12)
    } else {
        "Case "@ + t
    }
}

/// The label of the current case (`case_label`); a long id must not be cut
/// inside a character.
pub fn current_case_label(case_id: &str) -> (r: String)
    requires
        byte_len(trim(case_id@)) > 16 ==> is_boundary(trim(case_id@), 12),
    ensures
        r@ == case_label(case_id@),
{
    let t = trimmed(case_id);
    if t.as_str().is_empty() {
        return owned("No case selected");
    }
    let v = chars_of(t.as_str());
    let mut out = owned("Case ");
    let (fits, _) = measure_bytes(&v, 16);
    if fits {
        push_str(&mut out, t.as_str());
    } else {
        let (_, k) = measure_bytes(&v, 12);
        let head = string_of(&v, 0, k);
        assert(v@.subrange(0, k as int) =~= v@.take(k as int));
        push_str(&mut out, head.as_str());
    }
    out
}

// ---------------------------------------------------------------------------
// The operator's initials
// ---------------------------------------------------------------------------

/// Whether `char::is_alphanumeric` holds of `c` (Unicode `Alphabetic` or
/// `Numeric`).
pub uninterp spec fn char_alphanumeric(c: char) -> bool;

/// Calls `char::is_alphanumeric`.
#[verifier::external_body]
fn is_alphanumeric(c: char) -> (r: bool)
    ensures
        r == char_alphanumeric(c),
{
    c.is_alphanumeric()
}

/// The alphanumeric characters of `s`, in order.
pub open spec fn alphanumeric_chars(s: Seq<char>) -> Seq<char>
    decreases s.len(),
{
    if s.len() == 0 {
        Seq::empty()
    } else {
        let rest = alphanumeric_chars(s.drop_last());
        if char_alphanumeric(s.last()) {
            rest.push(s.last())
        } else {
            rest
        }
    }
}

/// The initials drawn from the alphanumeric characters `alnum` of a title: the
/// first two, upper-cased (ASCII); the first twice when there is one, `LL`
/// when there is none.
pub open spec fn initials(alnum: Seq<char>) -> Seq<char> {
    let first = if alnum.len() > 0 {
        alnum[0]
    } else {
        'L'
    };
    let second = if alnum.len() > 1 {
        alnum[1]
    } else {
        first
    };
    seq![ascii_upper(first), ascii_upper(second)]
}

/// The initials for the alphanumeric characters `alnum` of a title
/// (`initials`).
pub fn initials_of(alnum: &Vec<char>) -> (r: String)
    ensures
        r@ == initials(alnum@),
{
    let first = if alnum.len() > 0 {
        alnum[0]
    } else {
        'L'
    };
    let second = if alnum.len() > 1 {
        alnum[1]
    } else {
        first
    };
    let mut out = String::new();
    push_char(&mut out, upper_ascii_char(first));
    push_char(&mut out, upper_ascii_char(second));
    out
}

/// The operator's initials: those of the alphanumeric characters of the title.
pub fn operator_initials(title: &str) -> (r: String)
    ensures
        r@ == initials(alphanumeric_chars(title@)),
{
    let v = chars_of(title);
    let mut alnum: Vec<char> = Vec::new();
    let mut i: usize = 0;
    while i < v.len()
        invariant
            i <= v.len(),
            v@ == title@,
            alnum@ == alphanumeric_chars(v@.take(i as int)),
        decreases v.len() - i,
    {
        assert(v@.take(i + 1).drop_last() =~= v@.take(i as int));
        if is_alphanumeric(v[i]) {
            alnum.push(v[i]);
        }
        i += 1;
    }
    assert(v@.take(v.len() as int) =~= v@);
    initials_of(&alnum)
}

// ---------------------------------------------------------------------------
// The case-role badge and the signed-in line
// ---------------------------------------------------------------------------

/// The case-role badge's label and class: a loading badge while the role
/// loads, else one for each known role, a plain `Case role` for another one and
/// `No case role` without one.
pub open spec fn role_badge(role: Option<Seq<char>>, loading: bool) -> (Seq<char>, Seq<char>) {
    if loading {
        ("Loading role"@, "badge badge--run"@)
    } else {
        match role {
            Some(r) => if r == "owner"@ {
                ("Owner"@, "badge badge--ok"@)
            } else if r == "member"@ {
                ("Member"@, "badge badge--run"@)
            } else if r == "viewer"@ {
                ("Viewer"@, "badge badge--warn"@)
            } else {
                ("Case role"@, "badge"@)
            },
            None => ("No case role"@, "badge"@),
        }
    }
}

pub fn case_role_badge(role: Option<&str>, loading: bool) -> (r: (&'static str, &'static str))
    ensures
        (r.0@, r.1@) == role_badge(crate::api::opt_str_view(role), loading),
{
    if loading {
        return ("Loading role", "badge badge--run");
    }
    match role {
        Some(r) => if crate::text::same_text(r, "owner") {
            ("Owner", "badge badge--ok")
        } else if crate::text::same_text(r, "member") {
            ("Member", "badge badge--run")
        } else if crate::text::same_text(r, "viewer") {
            ("Viewer", "badge badge--warn")
        } else {
            ("Case role", "badge")
        },
        None => ("No case role", "badge"),
    }
}

/// The signed-in line: `Signed in: <username>`, followed by ` [<roles>]` with
/// the roles joined by commas when there are any; nothing without a user.
pub open spec fn user_line(u: Option<UserInfo>) -> Option<Seq<char>> {
    match u {
        None => None,
        Some(u) => Some(
            "Signed in: "@ + u.username@ + if u.roles@.len() == 0 {
                Seq::<char>::empty()
            } else {
                " ["@ + join(views(u.roles@), ","@) + "]"@
            },
        ),
    }
}

pub fn ctx_user_line(u: Option<UserInfo>) -> (r: Option<String>)
    ensures
        crate::shell::opt_view(r) == user_line(u),
{
    let u = match u {
        Some(u) => u,
        None => return None,
    };
    let mut out = owned("Signed in: ");
    push_str(&mut out, u.username.as_str());
    if u.roles.len() > 0 {
        push_str(&mut out, " [");
        let roles = join_strings(&u.roles, ",");
        push_str(&mut out, roles.as_str());
        push_str(&mut out, "]");
    }
    Some(out)
}

} // verus!
