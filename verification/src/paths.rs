//! The request paths that the pages build: operation-log queries and exports,
//! case exports, and file downloads.
use crate::api::{encode_trimmed, int_param, optional_param, url_encoded};
use crate::text::{
    blank, chars_of, int_dec, is_blank, join, join_strings, lower_ascii, lower_ascii_chars, owned,
    push_str, string_of, trim, trimmed, upper_ascii, upper_ascii_chars, views,
};
use vstd::prelude::*;

verus! {

// ---------------------------------------------------------------------------
// Operation logs
// ---------------------------------------------------------------------------

/// `name=value` for a value that is not blank, the value's trimmed text put
/// through `shape` and percent-encoded; nothing for a blank value.
pub open spec fn shaped_param(name: Seq<char>, value: Seq<char>, shaped: Seq<char>) -> Seq<Seq<char>> {
    if is_blank(value) {
        Seq::empty()
    } else {
        seq![name + "="@ + url_encoded(shaped)]
    }
}

/// The query of a page of operation logs: the page and page size as given,
/// then the case, the action (upper-cased), the module (lower-cased) and the
/// keyword, each trimmed and percent-encoded, where not blank.
pub open spec fn logs_query_parts(
    page: i64,
    page_size: i64,
    case_id: Seq<char>,
    action: Seq<char>,
    module: Seq<char>,
    keyword: Seq<char>,
) -> Seq<Seq<char>> {
    seq!["page="@ + int_dec(page as int), "page_size="@ + int_dec(page_size as int)]
        + optional_param("case_id"@, Some(case_id))
        + shaped_param("action"@, action, upper_ascii(trim(action)))
        + shaped_param("module"@, module, lower_ascii(trim(module)))
        + optional_param("keyword"@, Some(keyword))
}

/// Appends `name=value` for a non-blank value whose trimmed text is shaped by
/// an ASCII case mapping.
fn push_shaped(parts: &mut Vec<String>, name: &str, value: &str, upper: bool)
    ensures
        views(final(parts)@) == views(old(parts)@) + shaped_param(
            name@,
            value@,
            if upper {
                upper_ascii(trim(value@))
            } else {
                lower_ascii(trim(value@))
            },
        ),
{
    if blank(value) {
        assert(views(parts@) =~= views(old(parts)@) + Seq::<Seq<char>>::empty());
        return ;
    }
    let t = chars_of(trimmed(value).as_str());
    let shaped_chars = if upper {
        upper_ascii_chars(&t)
    } else {
        lower_ascii_chars(&t)
    };
    let shaped = string_of(&shaped_chars, 0, shaped_chars.len());
    assert(shaped_chars@.subrange(0, shaped_chars.len() as int) =~= shaped_chars@);
    let mut p = owned(name);
    push_str(&mut p, "=");
    let e = crate::api::url_encode(shaped.as_str());
    push_str(&mut p, e.as_str());
    parts.push(p);
    assert(views(parts@) =~= views(old(parts)@).push(p@));
}

/// Appends `name=value` for a non-blank value, trimmed and percent-encoded.
fn push_param(parts: &mut Vec<String>, name: &str, value: &str)
    ensures
        views(final(parts)@) == views(old(parts)@) + optional_param(name@, Some(value@)),
{
    if blank(value) {
        assert(views(parts@) =~= views(old(parts)@) + Seq::<Seq<char>>::empty());
        return ;
    }
    let mut p = owned(name);
    push_str(&mut p, "=");
    let e = encode_trimmed(value);
    push_str(&mut p, e.as_str());
    parts.push(p);
    assert(views(parts@) =~= views(old(parts)@).push(p@));
}

/// The query of a page of operation logs (`logs_query_parts` joined by `&`).
pub fn logs_query(
    page: i64,
    page_size: i64,
    case_id: &str,
    action: &str,
    module: &str,
    keyword: &str,
) -> (r: String)
    ensures
        r@ == join(logs_query_parts(page, page_size, case_id@, action@, module@, keyword@), "&"@),
{
    let mut parts: Vec<String> = Vec::new();
    parts.push(int_param("page=", page));
    parts.push(int_param("page_size=", page_size));
    assert(views(parts@) =~= seq!["page="@ + int_dec(page as int), "page_size="@ + int_dec(page_size as int)]);
    push_param(&mut parts, "case_id", case_id);
    push_shaped(&mut parts, "action", action, true);
    push_shaped(&mut parts, "module", module, false);
    push_param(&mut parts, "keyword", keyword);
    assert(views(parts@) =~= logs_query_parts(page, page_size, case_id@, action@, module@, keyword@));
    join_strings(&parts, "&")
}

/// The CSV export of the operation logs, of one case when one is given.
pub open spec fn logs_csv_path(case_id: Seq<char>) -> Seq<char> {
    if is_blank(case_id) {
        "/api/v1/logs/export"@
    } else {
        "/api/v1/logs/export"@ + "?case_id="@ + url_encoded(trim(case_id))
    }
}

pub fn logs_export_csv_path(case_id: &str) -> (r: String)
    ensures
        r@ == logs_csv_path(case_id@),
{
    let mut path = owned("/api/v1/logs/export");
    if !blank(case_id) {
        push_str(&mut path, "?case_id=");
        let e = encode_trimmed(case_id);
        push_str(&mut path, e.as_str());
    }
    path
}

/// The Excel export of the operation logs, of one case when one is given.
pub open spec fn logs_excel_path(case_id: Seq<char>) -> Seq<char> {
    "/api/v1/logs/export?"@ + join(seq!["format=excel"@] + optional_param("case_id"@, Some(case_id)), "&"@)
}

pub fn logs_export_excel_path(case_id: &str) -> (r: String)
    ensures
        r@ == logs_excel_path(case_id@),
{
    let mut parts: Vec<String> = Vec::new();
    parts.push(owned("format=excel"));
    assert(views(parts@) =~= seq!["format=excel"@]);
    push_param(&mut parts, "case_id", case_id);
    let q = join_strings(&parts, "&");
    let mut path = owned("/api/v1/logs/export?");
    push_str(&mut path, q.as_str());
    path
}

// ---------------------------------------------------------------------------
// Case exports
// ---------------------------------------------------------------------------

/// The evidence-list export of a case.
pub open spec fn evidence_list_path(case_id: Seq<char>) -> Seq<char> {
    "/api/v1/cases/"@ + case_id + "/exports/evidence-list"@
}

pub fn evidence_list_export_path(case_id: &str) -> (r: String)
    ensures
        r@ == evidence_list_path(case_id@),
{
    let mut path = owned("/api/v1/cases/");
    push_str(&mut path, case_id);
    push_str(&mut path, "/exports/evidence-list");
    path
}

/// The query of a timeline export: the format, then the start and end dates
/// as typed, each where it is not blank.
pub open spec fn export_query(format: Seq<char>, start_date: Seq<char>, end_date: Seq<char>) -> Seq<char> {
    "format="@ + format + (if is_blank(start_date) {
        Seq::<char>::empty()
    } else {
        "&start_date="@ + start_date
    }) + (if is_blank(end_date) {
        Seq::<char>::empty()
    } else {
        "&end_date="@ + end_date
    })
}

fn export_query_text(format: &str, start_date: &str, end_date: &str) -> (r: String)
    ensures
        r@ == export_query(format@, start_date@, end_date@),
{
    let mut q = owned("format=");
    push_str(&mut q, format);
    if !blank(start_date) {
        push_str(&mut q, "&start_date=");
        push_str(&mut q, start_date);
    }
    if !blank(end_date) {
        push_str(&mut q, "&end_date=");
        push_str(&mut q, end_date);
    }
    q
}

/// The timeline image export of a case (`png`), for the dates given.
pub open spec fn timeline_image_path(case_id: Seq<char>, start_date: Seq<char>, end_date: Seq<char>) -> Seq<char> {
    "/api/v1/cases/"@ + case_id + "/exports/timeline?"@ + export_query("png"@, start_date, end_date)
}

pub fn timeline_export_path(case_id: &str, start_date: &str, end_date: &str) -> (r: String)
    ensures
        r@ == timeline_image_path(case_id@, start_date@, end_date@),
{
    let q = export_query_text("png", start_date, end_date);
    let mut path = owned("/api/v1/cases/");
    push_str(&mut path, case_id);
    push_str(&mut path, "/exports/timeline?");
    push_str(&mut path, q.as_str());
    path
}

/// The timeline report export of a case in `format` (`pdf` or `html`), for
/// the dates given.
pub open spec fn timeline_report_query_path(
    case_id: Seq<char>,
    format: Seq<char>,
    start_date: Seq<char>,
    end_date: Seq<char>,
) -> Seq<char> {
    "/api/v1/cases/"@ + case_id + "/exports/timeline-report?"@ + export_query(format, start_date, end_date)
}

pub fn timeline_report_path(case_id: &str, format: &str, start_date: &str, end_date: &str) -> (r: String)
    ensures
        r@ == timeline_report_query_path(case_id@, format@, start_date@, end_date@),
{
    let q = export_query_text(format, start_date, end_date);
    let mut path = owned("/api/v1/cases/");
    push_str(&mut path, case_id);
    push_str(&mut path, "/exports/timeline-report?");
    push_str(&mut path, q.as_str());
    path
}

/// The download of an export record of a case.
pub fn export_download_path(case_id: &str, export_id: &str) -> (r: String)
    ensures
        r@ == "/api/v1/cases/"@ + case_id@ + "/exports/"@ + export_id@ + "/download"@,
{
    let mut path = owned("/api/v1/cases/");
    push_str(&mut path, case_id);
    push_str(&mut path, "/exports/");
    push_str(&mut path, export_id);
    push_str(&mut path, "/download");
    path
}

// ---------------------------------------------------------------------------
// File downloads
// ---------------------------------------------------------------------------

/// The download of an evidence file.
pub fn file_download_path(file_id: &str) -> (r: String)
    ensures
        r@ == "/api/v1/files/"@ + file_id@ + "/download"@,
{
    let mut path = owned("/api/v1/files/");
    push_str(&mut path, file_id);
    push_str(&mut path, "/download");
    path
}

/// The download of the parsed text of an evidence file.
pub fn file_parsed_path(file_id: &str) -> (r: String)
    ensures
        r@ == "/api/v1/files/"@ + file_id@ + "/parsed"@,
{
    let mut path = owned("/api/v1/files/");
    push_str(&mut path, file_id);
    push_str(&mut path, "/parsed");
    path
}

} // verus!
