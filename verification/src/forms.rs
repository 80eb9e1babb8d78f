//! What the workbench pages check before they call the server: the session a
//! request needs, and the pager under each list.
use crate::text::{blank, is_blank, owned, trim, trimmed};
use vstd::prelude::*;

verus! {

/// Why a request that needs the access token is refused, if it is.
pub open spec fn token_refusal(token: Seq<char>) -> Option<Seq<char>> {
    if is_blank(token) {
        Some("Missing access token"@)
    } else {
        None
    }
}

/// Why a request about the current case is refused, if it is: the token is
/// checked first, then the case.
pub open spec fn case_refusal(token: Seq<char>, case_id: Seq<char>) -> Option<Seq<char>> {
    if is_blank(token) {
        Some("Missing access token"@)
    } else if is_blank(case_id) {
        Some("Missing case_id"@)
    } else {
        None
    }
}

/// The trimmed access token, or the message refusing the request.
pub fn require_token(token: &str) -> (r: Result<String, String>)
    ensures
        match r {
            Ok(t) => token_refusal(token@) is None && t@ == trim(token@),
            Err(m) => token_refusal(token@) == Some(m@),
        },
{
    if blank(token) {
        Err(owned("Missing access token"))
    } else {
        Ok(trimmed(token))
    }
}

/// The trimmed access token and case id, or the message refusing the request.
pub fn require_case(token: &str, case_id: &str) -> (r: Result<(String, String), String>)
    ensures
        match r {
            Ok((t, c)) => case_refusal(token@, case_id@) is None && t@ == trim(token@) && c@ == trim(case_id@),
            Err(m) => case_refusal(token@, case_id@) == Some(m@),
        },
{
    if blank(token) {
        return Err(owned("Missing access token"));
    }
    if blank(case_id) {
        return Err(owned("Missing case_id"));
    }
    Ok((trimmed(token), trimmed(case_id)))
}

// ---------------------------------------------------------------------------
// The pager
// ---------------------------------------------------------------------------

/// Whether a list has a page before `page` ("Prev" is enabled).
pub fn has_prev_page(page: i64) -> (r: bool)
    ensures
        r == (page > 1),
{
    page > 1
}

/// Whether a list of `total` entries has a page after `page` when each page
/// holds `page_size` ("Next" is enabled).
pub fn has_next_page(page: i64, page_size: i64, total: i64) -> (r: bool)
    ensures
        r == (page * page_size < total),
{
    let p: i128 = page as i128;
    let s: i128 = page_size as i128;
    assert(-0x8000_0000_0000_0000 * 0x8000_0000_0000_0000 <= p * s <= 0x8000_0000_0000_0000
        * 0x8000_0000_0000_0000) by (nonlinear_arith)
        requires
            -0x8000_0000_0000_0000 <= p < 0x8000_0000_0000_0000,
            -0x8000_0000_0000_0000 <= s < 0x8000_0000_0000_0000,
    ;
    p * s < total as i128
}

/// The page "Prev" moves to: one back, never below the first.
pub fn prev_page(page: i64) -> (r: i64)
    ensures
        r == (if page > 1 {
            page - 1
        } else {
            1
        }),
{
    if page > 1 {
        page - 1
    } else {
        1
    }
}

} // verus!
