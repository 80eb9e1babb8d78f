//! Requests to the case API: the URL of every endpoint, the query strings,
//! the multipart upload body, and what is read back from a download.
use crate::text::{
    blank, byte_len, byte_prefix, chars_of, find_char, find_char_in, find_seq, find_text, int_dec,
    is_blank, is_boundary, join, join_strings, lower_ascii, measure_bytes, owned, push_char,
    push_int, push_str, replace_char, replace_chars, string_of, trim, trim_bounds, trim_start,
    views,
};
use vstd::prelude::*;
use vstd::utf8::encode_utf8;

verus! {

/// A downloaded file: its bytes, and the content type and file name that the
/// response headers gave, if any.
#[derive(Debug, Clone)]
pub struct DownloadedFile {
    pub bytes: Vec<u8>,
    pub content_type: Option<String>,
    pub filename: Option<String>,
}

// ---------------------------------------------------------------------------
// Joining a base URL and a path
// ---------------------------------------------------------------------------

/// `s.trim_end_matches('/')`.
pub open spec fn strip_slashes(s: Seq<char>) -> Seq<char>
    decreases s.len(),
{
    if s.len() > 0 && s.last() == '/' {
        strip_slashes(s.drop_last())
    } else {
        s
    }
}

/// The URL of `path_and_query` under `base`: the base, trimmed and without
/// trailing slashes, joined to the path by exactly the slash that the path
/// lacks; an empty base leaves the path as it is.
pub open spec fn joined_url(base: Seq<char>, path_and_query: Seq<char>) -> Seq<char> {
    let b = strip_slashes(trim(base));
    if b.len() == 0 {
        path_and_query
    } else if path_and_query.len() > 0 && path_and_query[0] == '/' {
        b + path_and_query
    } else {
        b + seq!['/'] + path_and_query
    }
}

proof fn lemma_strip_slashes(s: Seq<char>, j: int)
    requires
        0 <= j <= s.len(),
        forall|k: int| j <= k < s.len() ==> #[trigger] s[k] == '/',
        j == 0 || s[j - 1] != '/',
    ensures
        strip_slashes(s) == s.take(j),
    decreases s.len() - j,
{
    if j == s.len() {
        assert(s.take(j) =~= s);
        if s.len() > 0 {
            assert(s.last() == s[j - 1]);
        }
    } else {
        let t = s.drop_last();
        assert(s[s.len() - 1] == '/');
        assert forall|k: int| j <= k < t.len() implies #[trigger] t[k] == '/' by {
            assert(t[k] == s[k]);
        }
        if j > 0 {
            assert(t[j - 1] == s[j - 1]);
        }
        lemma_strip_slashes(t, j);
        assert(t.take(j) =~= s.take(j));
    }
}

/// Joins `path_and_query` to `base`.
pub fn build_url(base: &str, path_and_query: &str) -> (r: String)
    ensures
        r@ == joined_url(base@, path_and_query@),
{
    let v = chars_of(base);
    let (lo, hi0) = trim_bounds(&v);
    let mut hi = hi0;
    while hi > lo && v[hi - 1] == '/'
        invariant
            lo <= hi <= hi0 <= v.len(),
            forall|k: int| hi <= k < hi0 ==> #[trigger] v@[k] == '/',
        decreases hi - lo,
    {
        hi -= 1;
    }
    proof {
        let t = v@.subrange(lo as int, hi0 as int);
        assert forall|k: int| hi - lo <= k < t.len() implies #[trigger] t[k] == '/' by {
            assert(t[k] == v@[k + lo]);
        }
        if hi - lo > 0 {
            assert(t[hi - lo - 1] == v@[hi - 1]);
        }
        lemma_strip_slashes(t, hi - lo);
        assert(t.take(hi - lo) =~= v@.subrange(lo as int, hi as int));
    }
    if hi == lo {
        return owned(path_and_query);
    }
    let mut out = string_of(&v, lo, hi);
    let p = chars_of(path_and_query);
    if p.len() > 0 && p[0] == '/' {
        push_str(&mut out, path_and_query);
    } else {
        push_char(&mut out, '/');
        push_str(&mut out, path_and_query);
    }
    out
}

// ---------------------------------------------------------------------------
// Endpoints
// ---------------------------------------------------------------------------

/// The URL that `post_login` requests: `/api/v1/auth/login` under `base`.
pub fn post_login_url(base: &str) -> (r: String)
    ensures
        r@ == joined_url(base@, "/api/v1/auth/login"@),
{
    build_url(base, "/api/v1/auth/login")
}

/// The URL that `post_register` requests: `/api/v1/auth/register` under `base`.
pub fn post_register_url(base: &str) -> (r: String)
    ensures
        r@ == joined_url(base@, "/api/v1/auth/register"@),
{
    build_url(base, "/api/v1/auth/register")
}

/// The URL that `get_me` requests: `/api/v1/auth/me` under `base`.
pub fn get_me_url(base: &str) -> (r: String)
    ensures
        r@ == joined_url(base@, "/api/v1/auth/me"@),
{
    build_url(base, "/api/v1/auth/me")
}

/// The URL that `get_cases` requests: `/api/v1/cases?page={page}&page_size={page_size}` under `base`.
pub fn get_cases_url(base: &str, page: i64, page_size: i64) -> (r: String)
    ensures
        r@ == joined_url(base@, "/api/v1/cases?page="@ + int_dec(page as int) + "&page_size="@ + int_dec(page_size as int)),
{
    let mut path = String::new();
    push_str(&mut path, "/api/v1/cases?page=");
    push_int(&mut path, page);
    push_str(&mut path, "&page_size=");
    push_int(&mut path, page_size);
    proof {
        assert(path@ =~= "/api/v1/cases?page="@ + int_dec(page as int) + "&page_size="@ + int_dec(page_size as int));
    }
    build_url(base, path.as_str())
}

/// The URL that `post_create_case` requests: `/api/v1/cases` under `base`.
pub fn post_create_case_url(base: &str) -> (r: String)
    ensures
        r@ == joined_url(base@, "/api/v1/cases"@),
{
    build_url(base, "/api/v1/cases")
}

/// The URL that `get_case_member_me` requests: `/api/v1/cases/{case_id}/members/me` under `base`.
pub fn get_case_member_me_url(base: &str, case_id: &str) -> (r: String)
    ensures
        r@ == joined_url(base@, "/api/v1/cases/"@ + case_id@ + "/members/me"@),
{
    let mut path = String::new();
    push_str(&mut path, "/api/v1/cases/");
    push_str(&mut path, case_id);
    push_str(&mut path, "/members/me");
    proof {
        assert(path@ =~= "/api/v1/cases/"@ + case_id@ + "/members/me"@);
    }
    build_url(base, path.as_str())
}

/// The URL that `post_upload_case_file` requests: `/api/v1/cases/{case_id}/files` under `base`.
pub fn post_upload_case_file_url(base: &str, case_id: &str) -> (r: String)
    ensures
        r@ == joined_url(base@, "/api/v1/cases/"@ + case_id@ + "/files"@),
{
    let mut path = String::new();
    push_str(&mut path, "/api/v1/cases/");
    push_str(&mut path, case_id);
    push_str(&mut path, "/files");
    proof {
        assert(path@ =~= "/api/v1/cases/"@ + case_id@ + "/files"@);
    }
    build_url(base, path.as_str())
}

/// The URL that `get_case_files` requests: `/api/v1/cases/{case_id}/files?page={page}&page_size={page_size}` under `base`.
pub fn get_case_files_url(base: &str, case_id: &str, page: i64, page_size: i64) -> (r: String)
    ensures
        r@ == joined_url(base@, "/api/v1/cases/"@ + case_id@ + "/files?page="@ + int_dec(page as int) + "&page_size="@ + int_dec(page_size as int)),
{
    let mut path = String::new();
    push_str(&mut path, "/api/v1/cases/");
    push_str(&mut path, case_id);
    push_str(&mut path, "/files?page=");
    push_int(&mut path, page);
    push_str(&mut path, "&page_size=");
    push_int(&mut path, page_size);
    proof {
        assert(path@ =~= "/api/v1/cases/"@ + case_id@ + "/files?page="@ + int_dec(page as int) + "&page_size="@ + int_dec(page_size as int));
    }
    build_url(base, path.as_str())
}

/// The URL that `get_file_detail` requests: `/api/v1/files/{file_id}` under `base`.
pub fn get_file_detail_url(base: &str, file_id: &str) -> (r: String)
    ensures
        r@ == joined_url(base@, "/api/v1/files/"@ + file_id@),
{
    let mut path = String::new();
    push_str(&mut path, "/api/v1/files/");
    push_str(&mut path, file_id);
    proof {
        assert(path@ =~= "/api/v1/files/"@ + file_id@);
    }
    build_url(base, path.as_str())
}

/// The URL that `get_file_translation` requests: `/api/v1/files/{file_id}/translation` under `base`.
pub fn get_file_translation_url(base: &str, file_id: &str) -> (r: String)
    ensures
        r@ == joined_url(base@, "/api/v1/files/"@ + file_id@ + "/translation"@),
{
    let mut path = String::new();
    push_str(&mut path, "/api/v1/files/");
    push_str(&mut path, file_id);
    push_str(&mut path, "/translation");
    proof {
        assert(path@ =~= "/api/v1/files/"@ + file_id@ + "/translation"@);
    }
    build_url(base, path.as_str())
}

/// The URL that `post_retry_translation` requests: `/api/v1/files/{file_id}/translate/retry` under `base`.
pub fn post_retry_translation_url(base: &str, file_id: &str) -> (r: String)
    ensures
        r@ == joined_url(base@, "/api/v1/files/"@ + file_id@ + "/translate/retry"@),
{
    let mut path = String::new();
    push_str(&mut path, "/api/v1/files/");
    push_str(&mut path, file_id);
    push_str(&mut path, "/translate/retry");
    proof {
        assert(path@ =~= "/api/v1/files/"@ + file_id@ + "/translate/retry"@);
    }
    build_url(base, path.as_str())
}

/// The URL that `post_parse_file` requests: `/api/v1/files/{file_id}/parse` under `base`.
pub fn post_parse_file_url(base: &str, file_id: &str) -> (r: String)
    ensures
        r@ == joined_url(base@, "/api/v1/files/"@ + file_id@ + "/parse"@),
{
    let mut path = String::new();
    push_str(&mut path, "/api/v1/files/");
    push_str(&mut path, file_id);
    push_str(&mut path, "/parse");
    proof {
        assert(path@ =~= "/api/v1/files/"@ + file_id@ + "/parse"@);
    }
    build_url(base, path.as_str())
}

/// The URL that `get_export_history` requests: `/api/v1/cases/{case_id}/exports/history?page={page}&page_size={page_size}` under `base`.
pub fn get_export_history_url(base: &str, case_id: &str, page: i64, page_size: i64) -> (r: String)
    ensures
        r@ == joined_url(base@, "/api/v1/cases/"@ + case_id@ + "/exports/history?page="@ + int_dec(page as int) + "&page_size="@ + int_dec(page_size as int)),
{
    let mut path = String::new();
    push_str(&mut path, "/api/v1/cases/");
    push_str(&mut path, case_id);
    push_str(&mut path, "/exports/history?page=");
    push_int(&mut path, page);
    push_str(&mut path, "&page_size=");
    push_int(&mut path, page_size);
    proof {
        assert(path@ =~= "/api/v1/cases/"@ + case_id@ + "/exports/history?page="@ + int_dec(page as int) + "&page_size="@ + int_dec(page_size as int));
    }
    build_url(base, path.as_str())
}

/// The URL that `get_logs` requests: `/api/v1/logs?{query}` under `base`.
pub fn get_logs_url(base: &str, query: &str) -> (r: String)
    ensures
        r@ == joined_url(base@, "/api/v1/logs?"@ + query@),
{
    let mut path = String::new();
    push_str(&mut path, "/api/v1/logs?");
    push_str(&mut path, query);
    proof {
        assert(path@ =~= "/api/v1/logs?"@ + query@);
    }
    build_url(base, path.as_str())
}

/// The URL that `get_target_history` requests: `/api/v1/logs/{target_type}/{target_id}/history` under `base`.
pub fn get_target_history_url(base: &str, target_type: &str, target_id: &str) -> (r: String)
    ensures
        r@ == joined_url(base@, "/api/v1/logs/"@ + target_type@ + "/"@ + target_id@ + "/history"@),
{
    let mut path = String::new();
    push_str(&mut path, "/api/v1/logs/");
    push_str(&mut path, target_type);
    push_str(&mut path, "/");
    push_str(&mut path, target_id);
    push_str(&mut path, "/history");
    proof {
        assert(path@ =~= "/api/v1/logs/"@ + target_type@ + "/"@ + target_id@ + "/history"@);
    }
    build_url(base, path.as_str())
}

/// The URL that `get_timeline_node_detail` requests: `/api/v1/timeline/nodes/{node_id}` under `base`.
pub fn get_timeline_node_detail_url(base: &str, node_id: &str) -> (r: String)
    ensures
        r@ == joined_url(base@, "/api/v1/timeline/nodes/"@ + node_id@),
{
    let mut path = String::new();
    push_str(&mut path, "/api/v1/timeline/nodes/");
    push_str(&mut path, node_id);
    proof {
        assert(path@ =~= "/api/v1/timeline/nodes/"@ + node_id@);
    }
    build_url(base, path.as_str())
}

/// The URL that `post_create_timeline_node` requests: `/api/v1/cases/{case_id}/timeline/nodes` under `base`.
pub fn post_create_timeline_node_url(base: &str, case_id: &str) -> (r: String)
    ensures
        r@ == joined_url(base@, "/api/v1/cases/"@ + case_id@ + "/timeline/nodes"@),
{
    let mut path = String::new();
    push_str(&mut path, "/api/v1/cases/");
    push_str(&mut path, case_id);
    push_str(&mut path, "/timeline/nodes");
    proof {
        assert(path@ =~= "/api/v1/cases/"@ + case_id@ + "/timeline/nodes"@);
    }
    build_url(base, path.as_str())
}

/// The URL that `put_update_timeline_node` requests: `/api/v1/timeline/nodes/{node_id}` under `base`.
pub fn put_update_timeline_node_url(base: &str, node_id: &str) -> (r: String)
    ensures
        r@ == joined_url(base@, "/api/v1/timeline/nodes/"@ + node_id@),
{
    let mut path = String::new();
    push_str(&mut path, "/api/v1/timeline/nodes/");
    push_str(&mut path, node_id);
    proof {
        assert(path@ =~= "/api/v1/timeline/nodes/"@ + node_id@);
    }
    build_url(base, path.as_str())
}

/// The URL that `post_move_timeline_node` requests: `/api/v1/timeline/nodes/{node_id}/move` under `base`.
pub fn post_move_timeline_node_url(base: &str, node_id: &str) -> (r: String)
    ensures
        r@ == joined_url(base@, "/api/v1/timeline/nodes/"@ + node_id@ + "/move"@),
{
    let mut path = String::new();
    push_str(&mut path, "/api/v1/timeline/nodes/");
    push_str(&mut path, node_id);
    push_str(&mut path, "/move");
    proof {
        assert(path@ =~= "/api/v1/timeline/nodes/"@ + node_id@ + "/move"@);
    }
    build_url(base, path.as_str())
}

/// The URL that `delete_timeline_node` requests: `/api/v1/timeline/nodes/{node_id}` under `base`.
pub fn delete_timeline_node_url(base: &str, node_id: &str) -> (r: String)
    ensures
        r@ == joined_url(base@, "/api/v1/timeline/nodes/"@ + node_id@),
{
    let mut path = String::new();
    push_str(&mut path, "/api/v1/timeline/nodes/");
    push_str(&mut path, node_id);
    proof {
        assert(path@ =~= "/api/v1/timeline/nodes/"@ + node_id@);
    }
    build_url(base, path.as_str())
}

/// The URL that `post_link_node_evidence` requests: `/api/v1/timeline/nodes/{node_id}/evidence` under `base`.
pub fn post_link_node_evidence_url(base: &str, node_id: &str) -> (r: String)
    ensures
        r@ == joined_url(base@, "/api/v1/timeline/nodes/"@ + node_id@ + "/evidence"@),
{
    let mut path = String::new();
    push_str(&mut path, "/api/v1/timeline/nodes/");
    push_str(&mut path, node_id);
    push_str(&mut path, "/evidence");
    proof {
        assert(path@ =~= "/api/v1/timeline/nodes/"@ + node_id@ + "/evidence"@);
    }
    build_url(base, path.as_str())
}

/// The URL that `delete_unlink_node_evidence` requests: `/api/v1/timeline/nodes/{node_id}/evidence/{link_id}` under `base`.
pub fn delete_unlink_node_evidence_url(base: &str, node_id: &str, link_id: &str) -> (r: String)
    ensures
        r@ == joined_url(base@, "/api/v1/timeline/nodes/"@ + node_id@ + "/evidence/"@ + link_id@),
{
    let mut path = String::new();
    push_str(&mut path, "/api/v1/timeline/nodes/");
    push_str(&mut path, node_id);
    push_str(&mut path, "/evidence/");
    push_str(&mut path, link_id);
    proof {
        assert(path@ =~= "/api/v1/timeline/nodes/"@ + node_id@ + "/evidence/"@ + link_id@);
    }
    build_url(base, path.as_str())
}

/// The URL that `get_case_persons` requests: `/api/v1/cases/{case_id}/persons?page={page}&page_size={page_size}` under `base`.
pub fn get_case_persons_url(base: &str, case_id: &str, page: i64, page_size: i64) -> (r: String)
    ensures
        r@ == joined_url(base@, "/api/v1/cases/"@ + case_id@ + "/persons?page="@ + int_dec(page as int) + "&page_size="@ + int_dec(page_size as int)),
{
    let mut path = String::new();
    push_str(&mut path, "/api/v1/cases/");
    push_str(&mut path, case_id);
    push_str(&mut path, "/persons?page=");
    push_int(&mut path, page);
    push_str(&mut path, "&page_size=");
    push_int(&mut path, page_size);
    proof {
        assert(path@ =~= "/api/v1/cases/"@ + case_id@ + "/persons?page="@ + int_dec(page as int) + "&page_size="@ + int_dec(page_size as int));
    }
    build_url(base, path.as_str())
}

/// The URL that `get_case_person_graph` requests: `/api/v1/cases/{case_id}/persons/graph` under `base`.
pub fn get_case_person_graph_url(base: &str, case_id: &str) -> (r: String)
    ensures
        r@ == joined_url(base@, "/api/v1/cases/"@ + case_id@ + "/persons/graph"@),
{
    let mut path = String::new();
    push_str(&mut path, "/api/v1/cases/");
    push_str(&mut path, case_id);
    push_str(&mut path, "/persons/graph");
    proof {
        assert(path@ =~= "/api/v1/cases/"@ + case_id@ + "/persons/graph"@);
    }
    build_url(base, path.as_str())
}

/// The URL that `post_create_case_person` requests: `/api/v1/cases/{case_id}/persons` under `base`.
pub fn post_create_case_person_url(base: &str, case_id: &str) -> (r: String)
    ensures
        r@ == joined_url(base@, "/api/v1/cases/"@ + case_id@ + "/persons"@),
{
    let mut path = String::new();
    push_str(&mut path, "/api/v1/cases/");
    push_str(&mut path, case_id);
    push_str(&mut path, "/persons");
    proof {
        assert(path@ =~= "/api/v1/cases/"@ + case_id@ + "/persons"@);
    }
    build_url(base, path.as_str())
}

/// The URL that `get_person_detail` requests: `/api/v1/persons/{person_id}` under `base`.
pub fn get_person_detail_url(base: &str, person_id: &str) -> (r: String)
    ensures
        r@ == joined_url(base@, "/api/v1/persons/"@ + person_id@),
{
    let mut path = String::new();
    push_str(&mut path, "/api/v1/persons/");
    push_str(&mut path, person_id);
    proof {
        assert(path@ =~= "/api/v1/persons/"@ + person_id@);
    }
    build_url(base, path.as_str())
}

/// The URL that `put_update_person` requests: `/api/v1/persons/{person_id}` under `base`.
pub fn put_update_person_url(base: &str, person_id: &str) -> (r: String)
    ensures
        r@ == joined_url(base@, "/api/v1/persons/"@ + person_id@),
{
    let mut path = String::new();
    push_str(&mut path, "/api/v1/persons/");
    push_str(&mut path, person_id);
    proof {
        assert(path@ =~= "/api/v1/persons/"@ + person_id@);
    }
    build_url(base, path.as_str())
}

/// The URL that `delete_person` requests: `/api/v1/persons/{person_id}` under `base`.
pub fn delete_person_url(base: &str, person_id: &str) -> (r: String)
    ensures
        r@ == joined_url(base@, "/api/v1/persons/"@ + person_id@),
{
    let mut path = String::new();
    push_str(&mut path, "/api/v1/persons/");
    push_str(&mut path, person_id);
    proof {
        assert(path@ =~= "/api/v1/persons/"@ + person_id@);
    }
    build_url(base, path.as_str())
}

/// The URL that `post_person_link_case` requests: `/api/v1/persons/{person_id}/cases` under `base`.
pub fn post_person_link_case_url(base: &str, person_id: &str) -> (r: String)
    ensures
        r@ == joined_url(base@, "/api/v1/persons/"@ + person_id@ + "/cases"@),
{
    let mut path = String::new();
    push_str(&mut path, "/api/v1/persons/");
    push_str(&mut path, person_id);
    push_str(&mut path, "/cases");
    proof {
        assert(path@ =~= "/api/v1/persons/"@ + person_id@ + "/cases"@);
    }
    build_url(base, path.as_str())
}

/// The URL that `get_case_persons_dedupe` requests: `/api/v1/cases/{case_id}/persons/dedupe` under `base`.
pub fn get_case_persons_dedupe_url(base: &str, case_id: &str) -> (r: String)
    ensures
        r@ == joined_url(base@, "/api/v1/cases/"@ + case_id@ + "/persons/dedupe"@),
{
    let mut path = String::new();
    push_str(&mut path, "/api/v1/cases/");
    push_str(&mut path, case_id);
    push_str(&mut path, "/persons/dedupe");
    proof {
        assert(path@ =~= "/api/v1/cases/"@ + case_id@ + "/persons/dedupe"@);
    }
    build_url(base, path.as_str())
}

/// The URL that `post_merge_case_persons` requests: `/api/v1/cases/{case_id}/persons/merge` under `base`.
pub fn post_merge_case_persons_url(base: &str, case_id: &str) -> (r: String)
    ensures
        r@ == joined_url(base@, "/api/v1/cases/"@ + case_id@ + "/persons/merge"@),
{
    let mut path = String::new();
    push_str(&mut path, "/api/v1/cases/");
    push_str(&mut path, case_id);
    push_str(&mut path, "/persons/merge");
    proof {
        assert(path@ =~= "/api/v1/cases/"@ + case_id@ + "/persons/merge"@);
    }
    build_url(base, path.as_str())
}

/// The URL that `get_case_person_relationships` requests: `/api/v1/cases/{case_id}/persons/relationships` under `base`.
pub fn get_case_person_relationships_url(base: &str, case_id: &str) -> (r: String)
    ensures
        r@ == joined_url(base@, "/api/v1/cases/"@ + case_id@ + "/persons/relationships"@),
{
    let mut path = String::new();
    push_str(&mut path, "/api/v1/cases/");
    push_str(&mut path, case_id);
    push_str(&mut path, "/persons/relationships");
    proof {
        assert(path@ =~= "/api/v1/cases/"@ + case_id@ + "/persons/relationships"@);
    }
    build_url(base, path.as_str())
}

/// The URL that `post_create_case_person_relationship` requests: `/api/v1/cases/{case_id}/persons/relationships` under `base`.
pub fn post_create_case_person_relationship_url(base: &str, case_id: &str) -> (r: String)
    ensures
        r@ == joined_url(base@, "/api/v1/cases/"@ + case_id@ + "/persons/relationships"@),
{
    let mut path = String::new();
    push_str(&mut path, "/api/v1/cases/");
    push_str(&mut path, case_id);
    push_str(&mut path, "/persons/relationships");
    proof {
        assert(path@ =~= "/api/v1/cases/"@ + case_id@ + "/persons/relationships"@);
    }
    build_url(base, path.as_str())
}

/// The URL that `delete_case_person_relationship` requests: `/api/v1/cases/{case_id}/persons/relationships/{relationship_id}` under `base`.
pub fn delete_case_person_relationship_url(base: &str, case_id: &str, relationship_id: &str) -> (r: String)
    ensures
        r@ == joined_url(base@, "/api/v1/cases/"@ + case_id@ + "/persons/relationships/"@ + relationship_id@),
{
    let mut path = String::new();
    push_str(&mut path, "/api/v1/cases/");
    push_str(&mut path, case_id);
    push_str(&mut path, "/persons/relationships/");
    push_str(&mut path, relationship_id);
    proof {
        assert(path@ =~= "/api/v1/cases/"@ + case_id@ + "/persons/relationships/"@ + relationship_id@);
    }
    build_url(base, path.as_str())
}

/// The URL that `get_search_history` requests: `/api/v1/search/history?page={page}&page_size={page_size}` under `base`.
pub fn get_search_history_url(base: &str, page: i64, page_size: i64) -> (r: String)
    ensures
        r@ == joined_url(base@, "/api/v1/search/history?page="@ + int_dec(page as int) + "&page_size="@ + int_dec(page_size as int)),
{
    let mut path = String::new();
    push_str(&mut path, "/api/v1/search/history?page=");
    push_int(&mut path, page);
    push_str(&mut path, "&page_size=");
    push_int(&mut path, page_size);
    proof {
        assert(path@ =~= "/api/v1/search/history?page="@ + int_dec(page as int) + "&page_size="@ + int_dec(page_size as int));
    }
    build_url(base, path.as_str())
}

/// The URL that `delete_search_history` requests: `/api/v1/search/history` under `base`.
pub fn delete_search_history_url(base: &str) -> (r: String)
    ensures
        r@ == joined_url(base@, "/api/v1/search/history"@),
{
    build_url(base, "/api/v1/search/history")
}

// ---------------------------------------------------------------------------
// Percent-encoding
// ---------------------------------------------------------------------------

/// The bytes that percent-encoding leaves as they are: ASCII letters, digits,
/// `-`, `.`, `_` and `~`.
pub open spec fn is_unreserved(b: u8) -> bool {
    (48 <= b <= 57) || (65 <= b <= 90) || (97 <= b <= 122) || b == 45 || b == 46 || b == 95
        || b == 126
}

/// The upper-case hexadecimal digit for `d < 16`.
pub open spec fn hex_upper(d: u8) -> char {
    if d < 10 {
        ((48 + d) as u32) as char
    } else {
        ((55 + d) as u32) as char
    }
}

/// Every byte but the unreserved ones written as `%` and two upper-case
/// hexadecimal digits.
pub open spec fn percent_encode(bytes: Seq<u8>) -> Seq<char>
    decreases bytes.len(),
{
    if bytes.len() == 0 {
        Seq::empty()
    } else {
        let b = bytes[0];
        (if is_unreserved(b) {
            seq![(b as u32) as char]
        } else {
            seq!['%', hex_upper(b / 16), hex_upper(b % 16)]
        }) + percent_encode(bytes.drop_first())
    }
}

/// The percent-encoding of the UTF-8 bytes of a string.
pub open spec fn url_encoded(s: Seq<char>) -> Seq<char> {
    percent_encode(encode_utf8(s))
}

/// Calls `urlencoding::encode`, which percent-encodes every byte of the UTF-8
/// encoding of `s` except ASCII alphanumerics and `-`, `.`, `_`, `~`, with
/// upper-case hexadecimal digits.
#[verifier::external_body]
pub(crate) fn url_encode(s: &str) -> (r: String)
    ensures
        r@ == url_encoded(s@),
{
    urlencoding::encode(s).into_owned()
}

/// The trimmed `s`, percent-encoded.
pub(crate) fn encode_trimmed(s: &str) -> (r: String)
    ensures
        r@ == url_encoded(trim(s@)),
{
    let t = crate::text::trimmed(s);
    url_encode(t.as_str())
}

// ---------------------------------------------------------------------------
// Query strings
// ---------------------------------------------------------------------------

/// The view of an optional string slice.
pub open spec fn opt_str_view(o: Option<&str>) -> Option<Seq<char>> {
    match o {
        Some(s) => Some(s@),
        None => None,
    }
}

/// The parameter `name=value` for an optional value that is not blank, the
/// value trimmed and percent-encoded; nothing otherwise.
pub open spec fn optional_param(name: Seq<char>, value: Option<Seq<char>>) -> Seq<Seq<char>> {
    match value {
        Some(v) => if is_blank(v) {
            Seq::empty()
        } else {
            seq![name + "="@ + url_encoded(trim(v))]
        },
        None => Seq::empty(),
    }
}

/// `value.clamp(lo, hi)`.
pub open spec fn clamped(value: i64, lo: i64, hi: i64) -> i64 {
    if value < lo {
        lo
    } else if value > hi {
        hi
    } else {
        value
    }
}

/// `value.max(lo)`.
pub open spec fn at_least(value: i64, lo: i64) -> i64 {
    if value < lo {
        lo
    } else {
        value
    }
}

/// Appends `name=value` to `parts` when the optional value is not blank.
fn push_optional_param(parts: &mut Vec<String>, name: &str, value: Option<&str>)
    ensures
        views(final(parts)@) == views(old(parts)@) + optional_param(name@, opt_str_view(value)),
{
    if let Some(v) = value {
        if !blank(v) {
            let mut p = owned(name);
            push_str(&mut p, "=");
            let e = encode_trimmed(v);
            push_str(&mut p, e.as_str());
            parts.push(p);
            assert(views(parts@) =~= views(old(parts)@) + optional_param(name@, opt_str_view(value)));
            return ;
        }
    }
    assert(views(parts@) =~= views(old(parts)@) + optional_param(name@, opt_str_view(value)));
}

fn clamp_i64(value: i64, lo: i64, hi: i64) -> (r: i64)
    requires
        lo <= hi,
    ensures
        r == clamped(value, lo, hi),
{
    if value < lo {
        lo
    } else if value > hi {
        hi
    } else {
        value
    }
}

fn max_i64(value: i64, lo: i64) -> (r: i64)
    ensures
        r == at_least(value, lo),
{
    if value < lo {
        lo
    } else {
        value
    }
}

/// `prefix` followed by an integer value.
pub(crate) fn int_param(prefix: &str, value: i64) -> (r: String)
    ensures
        r@ == prefix@ + int_dec(value as int),
{
    let mut p = owned(prefix);
    push_int(&mut p, value);
    p
}

/// The query of a search: the trimmed keyword, the page (at least 1), the page
/// size (within 1 to 200), then the language mode, object types and case when
/// given and not blank.
pub open spec fn search_query_parts(
    keyword: Seq<char>,
    object_types: Option<Seq<char>>,
    case_id: Option<Seq<char>>,
    language_mode: Option<Seq<char>>,
    page: i64,
    page_size: i64,
) -> Seq<Seq<char>> {
    seq![
        "keyword="@ + url_encoded(trim(keyword)),
        "page="@ + int_dec(at_least(page, 1) as int),
        "page_size="@ + int_dec(clamped(page_size, 1, 200) as int),
    ] + optional_param("language_mode"@, language_mode) + optional_param(
        "object_types"@,
        object_types,
    ) + optional_param("case_id"@, case_id)
}

/// The URL of a search.
pub fn build_search_url(
    base: &str,
    keyword: &str,
    object_types: Option<&str>,
    case_id: Option<&str>,
    language_mode: Option<&str>,
    page: i64,
    page_size: i64,
) -> (r: String)
    ensures
        r@ == joined_url(
            base@,
            "/api/v1/search?"@ + join(
                search_query_parts(
                    keyword@,
                    opt_str_view(object_types),
                    opt_str_view(case_id),
                    opt_str_view(language_mode),
                    page,
                    page_size,
                ),
                "&"@,
            ),
        ),
{
    let mut parts: Vec<String> = Vec::new();
    let mut k = owned("keyword=");
    let e = encode_trimmed(keyword);
    push_str(&mut k, e.as_str());
    let p1 = int_param("page=", max_i64(page, 1));
    let p2 = int_param("page_size=", clamp_i64(page_size, 1, 200));
    parts.push(k);
    parts.push(p1);
    parts.push(p2);
    assert(views(parts@) =~= seq![
        "keyword="@ + url_encoded(trim(keyword@)),
        "page="@ + int_dec(at_least(page, 1) as int),
        "page_size="@ + int_dec(clamped(page_size, 1, 200) as int),
    ]);
    push_optional_param(&mut parts, "language_mode", language_mode);
    push_optional_param(&mut parts, "object_types", object_types);
    push_optional_param(&mut parts, "case_id", case_id);
    assert(views(parts@) =~= search_query_parts(
        keyword@,
        opt_str_view(object_types),
        opt_str_view(case_id),
        opt_str_view(language_mode),
        page,
        page_size,
    ));
    let q = join_strings(&parts, "&");
    let mut path = owned("/api/v1/search?");
    push_str(&mut path, q.as_str());
    build_url(base, path.as_str())
}

/// The URL of the search suggestions for the trimmed keyword.
pub fn get_search_suggestions_url(base: &str, keyword: &str) -> (r: String)
    ensures
        r@ == joined_url(base@, "/api/v1/search/suggestions?keyword="@ + url_encoded(trim(keyword@))),
{
    let mut path = owned("/api/v1/search/suggestions?keyword=");
    let e = encode_trimmed(keyword);
    push_str(&mut path, e.as_str());
    build_url(base, path.as_str())
}

/// The query of a page of file chunks: the page (at least 1), the page size
/// (within 1 to 200) and the view mode when given and not blank.
pub open spec fn file_chunks_query_parts(page: i64, page_size: i64, view_mode: Option<Seq<char>>) -> Seq<
    Seq<char>,
> {
    seq![
        "page="@ + int_dec(at_least(page, 1) as int),
        "page_size="@ + int_dec(clamped(page_size, 1, 200) as int),
    ] + optional_param("view_mode"@, view_mode)
}

/// The URL of a page of the chunks of a file.
pub fn get_file_chunks_url(
    base: &str,
    file_id: &str,
    page: i64,
    page_size: i64,
    view_mode: Option<&str>,
) -> (r: String)
    ensures
        r@ == joined_url(
            base@,
            "/api/v1/files/"@ + file_id@ + "/chunks?"@ + join(
                file_chunks_query_parts(page, page_size, opt_str_view(view_mode)),
                "&"@,
            ),
        ),
{
    let mut parts: Vec<String> = Vec::new();
    parts.push(int_param("page=", max_i64(page, 1)));
    parts.push(int_param("page_size=", clamp_i64(page_size, 1, 200)));
    assert(views(parts@) =~= seq![
        "page="@ + int_dec(at_least(page, 1) as int),
        "page_size="@ + int_dec(clamped(page_size, 1, 200) as int),
    ]);
    push_optional_param(&mut parts, "view_mode", view_mode);
    assert(views(parts@) =~= file_chunks_query_parts(page, page_size, opt_str_view(view_mode)));
    let q = join_strings(&parts, "&");
    let mut path = owned("/api/v1/files/");
    push_str(&mut path, file_id);
    push_str(&mut path, "/chunks?");
    push_str(&mut path, q.as_str());
    build_url(base, path.as_str())
}

/// The query of a page of timeline nodes: the page (at least 1), the page size
/// (within 1 to 500), then the start date, end date and tags when given and not
/// blank.
pub open spec fn timeline_query_parts(
    start_date: Option<Seq<char>>,
    end_date: Option<Seq<char>>,
    tags: Option<Seq<char>>,
    page: i64,
    page_size: i64,
) -> Seq<Seq<char>> {
    seq![
        "page="@ + int_dec(at_least(page, 1) as int),
        "page_size="@ + int_dec(clamped(page_size, 1, 500) as int),
    ] + optional_param("start_date"@, start_date) + optional_param("end_date"@, end_date)
        + optional_param("tags"@, tags)
}

/// The URL of a page of the timeline nodes of a case.
pub fn get_timeline_nodes_url(
    base: &str,
    case_id: &str,
    start_date: Option<&str>,
    end_date: Option<&str>,
    tags: Option<&str>,
    page: i64,
    page_size: i64,
) -> (r: String)
    ensures
        r@ == joined_url(
            base@,
            "/api/v1/cases/"@ + case_id@ + "/timeline/nodes?"@ + join(
                timeline_query_parts(
                    opt_str_view(start_date),
                    opt_str_view(end_date),
                    opt_str_view(tags),
                    page,
                    page_size,
                ),
                "&"@,
            ),
        ),
{
    let mut parts: Vec<String> = Vec::new();
    parts.push(int_param("page=", max_i64(page, 1)));
    parts.push(int_param("page_size=", clamp_i64(page_size, 1, 500)));
    assert(views(parts@) =~= seq![
        "page="@ + int_dec(at_least(page, 1) as int),
        "page_size="@ + int_dec(clamped(page_size, 1, 500) as int),
    ]);
    push_optional_param(&mut parts, "start_date", start_date);
    push_optional_param(&mut parts, "end_date", end_date);
    push_optional_param(&mut parts, "tags", tags);
    assert(views(parts@) =~= timeline_query_parts(
        opt_str_view(start_date),
        opt_str_view(end_date),
        opt_str_view(tags),
        page,
        page_size,
    ));
    let q = join_strings(&parts, "&");
    let mut path = owned("/api/v1/cases/");
    push_str(&mut path, case_id);
    push_str(&mut path, "/timeline/nodes?");
    push_str(&mut path, q.as_str());
    build_url(base, path.as_str())
}

// ---------------------------------------------------------------------------
// Downloads and uploads
// ---------------------------------------------------------------------------

/// The file name that a `Content-Disposition` header gives: the text after the
/// first `filename=` (matched without regard to ASCII case), with leading
/// whitespace and an opening quote removed, up to the next quote (or, without
/// one, the next `;`), trimmed; `None` when there is no such text.
pub open spec fn disposition_filename(raw: Seq<char>) -> Option<Seq<char>> {
    let t = trim(raw);
    match find_seq(lower_ascii(t), "filename="@) {
        None => None,
        Some(idx) => {
            let rest0 = trim_start(t.skip(idx + 9));
            let rest = if rest0.len() > 0 && rest0[0] == '"' {
                rest0.drop_first()
            } else {
                rest0
            };
            let end = match find_char(rest, '"') {
                Some(e) => e,
                None => match find_char(rest, ';') {
                    Some(e) => e,
                    None => rest.len() as int,
                },
            };
            let name = trim(rest.take(end));
            if name.len() == 0 {
                None
            } else {
                Some(name)
            }
        },
    }
}

fn lower_ascii_chars(v: &Vec<char>) -> (r: Vec<char>)
    ensures
        r@ == lower_ascii(v@),
{
    let mut r: Vec<char> = Vec::new();
    let mut i: usize = 0;
    while i < v.len()
        invariant
            i <= v.len(),
            r@ == lower_ascii(v@.take(i as int)),
        decreases v.len() - i,
    {
        let c = v[i];
        let l = if 'A' <= c && c <= 'Z' {
            char_from_ascii(c as u32 + 32)
        } else {
            c
        };
        r.push(l);
        assert(lower_ascii(v@.take(i + 1)) =~= lower_ascii(v@.take(i as int)).push(
            crate::text::ascii_lower(c),
        ));
        i += 1;
    }
    assert(v@.take(v.len() as int) =~= v@);
    r
}

/// The character of an ASCII code.
fn char_from_ascii(u: u32) -> (c: char)
    requires
        u < 128,
    ensures
        c == (u as char),
{
    let b: u8 = u as u8;
    b as char
}

/// The file name in a `Content-Disposition` header.
pub fn filename_from_content_disposition(raw: &str) -> (r: Option<String>)
    ensures
        match r {
            Some(s) => disposition_filename(raw@) == Some(s@),
            None => disposition_filename(raw@) is None,
        },
{
    let all = chars_of(raw);
    let (lo, hi) = trim_bounds(&all);
    let t = string_of(&all, lo, hi);
    let tv = chars_of(t.as_str());
    let lowered = lower_ascii_chars(&tv);
    let pat = chars_of("filename=");
    proof {
        reveal_strlit("filename=");
    }
    let idx = match find_text(&lowered, &pat) {
        Some(i) => i,
        None => return None,
    };
    assert(idx + 9 <= tv.len()) by {
        crate::text::lemma_find_bound(lowered@, pat@, 0);
    }
    let after = string_of(&tv, idx + 9, tv.len());
    let av = chars_of(after.as_str());
    let (rlo, _rhi) = trim_bounds(&av);
    let mut start = rlo;
    if start < av.len() && av[start] == '"' {
        start = start + 1;
    }
    let rest_s = string_of(&av, start, av.len());
    let rest = chars_of(rest_s.as_str());
    proof {
        assert(tv@.skip(idx + 9) =~= av@);
        let rest0 = av@.skip(rlo as int);
        if rest0.len() > 0 && rest0[0] == '"' {
            assert(rest0.drop_first() =~= av@.subrange(rlo + 1, av@.len() as int));
        } else {
            assert(rest0 =~= av@.subrange(rlo as int, av@.len() as int));
        }
    }
    let end = match find_char_in(&rest, '"') {
        Some(e) => e,
        None => match find_char_in(&rest, ';') {
            Some(e) => e,
            None => rest.len(),
        },
    };
    assert(end <= rest.len()) by {
        if let Some(e) = find_char(rest@, '"') {
            crate::text::lemma_find_bound(rest@, seq!['"'], 0);
        }
        if let Some(e) = find_char(rest@, ';') {
            crate::text::lemma_find_bound(rest@, seq![';'], 0);
        }
    }
    let name_s = string_of(&rest, 0, end);
    assert(rest@.take(end as int) =~= rest@.subrange(0, end as int));
    let nv = chars_of(name_s.as_str());
    let (nlo, nhi) = trim_bounds(&nv);
    if nlo == nhi {
        None
    } else {
        Some(string_of(&nv, nlo, nhi))
    }
}

/// `s` when it fits in `max` bytes, else its first `max` bytes followed by `...`.
pub open spec fn truncated_bytes(s: Seq<char>, max: int) -> Seq<char> {
    if byte_len(s) <= max {
        s
    } else {
        byte_prefix(s, max) + "..."@
    }
}

/// `s` cut to `max` bytes with `...` appended when it is longer; the cut must
/// fall on a character boundary.
pub fn truncate(s: &str, max: usize) -> (r: String)
    requires
        byte_len(s@) <= max || is_boundary(s@, max as int),
    ensures
        r@ == truncated_bytes(s@, max as int),
{
    let v = chars_of(s);
    let (fits, fit) = measure_bytes(&v, max);
    if fits {
        owned(s)
    } else {
        let mut out = string_of(&v, 0, fit);
        assert(v@.subrange(0, fit as int) =~= v@.take(fit as int));
        push_str(&mut out, "...");
        out
    }
}

/// A file name for saving: backslashes, slashes and quotes become `_`, and a
/// blank name becomes `download`.
pub open spec fn sanitized_download_name(raw: Seq<char>) -> Seq<char> {
    let s = replace_char(replace_char(replace_char(raw, '\\', '_'), '/', '_'), '"', '_');
    if is_blank(s) {
        "download"@
    } else {
        s
    }
}

pub fn sanitize_filename(raw: &str) -> (r: String)
    ensures
        r@ == sanitized_download_name(raw@),
{
    let v = chars_of(raw);
    let a = replace_chars(&v, '\\', '_');
    let b = replace_chars(&a, '/', '_');
    let c = replace_chars(&b, '"', '_');
    let s = string_of(&c, 0, c.len());
    assert(c@.subrange(0, c@.len() as int) =~= c@);
    if blank(s.as_str()) {
        owned("download")
    } else {
        s
    }
}

/// An upload file name that cannot break the `Content-Disposition` header:
/// carriage returns, line feeds, backslashes and quotes become `_`, and a blank
/// name becomes `upload.bin`.
pub open spec fn sanitized_upload_name(raw: Seq<char>) -> Seq<char> {
    let s = replace_char(
        replace_char(replace_char(replace_char(raw, '\r', '_'), '\n', '_'), '\\', '_'),
        '"',
        '_',
    );
    if is_blank(s) {
        "upload.bin"@
    } else {
        s
    }
}

pub fn sanitize_upload_filename(raw: &str) -> (r: String)
    ensures
        r@ == sanitized_upload_name(raw@),
{
    let v = chars_of(raw);
    let a = replace_chars(&v, '\r', '_');
    let b = replace_chars(&a, '\n', '_');
    let c = replace_chars(&b, '\\', '_');
    let d = replace_chars(&c, '"', '_');
    let s = string_of(&d, 0, d.len());
    assert(d@.subrange(0, d@.len() as int) =~= d@);
    if blank(s.as_str()) {
        owned("upload.bin")
    } else {
        s
    }
}

/// The multipart body of an upload: one part named `file` with the sanitized
/// file name and the bytes as `application/octet-stream`, between the boundary
/// lines.
pub open spec fn multipart_body(boundary: Seq<char>, filename: Seq<char>, bytes: Seq<u8>) -> Seq<u8> {
    encode_utf8("--"@ + boundary + "\r\n"@) + encode_utf8(
        "Content-Disposition: form-data; name=\"file\"; filename=\""@ + sanitized_upload_name(
            filename,
        ) + "\"\r\n"@,
    ) + encode_utf8("Content-Type: application/octet-stream\r\n\r\n"@) + bytes + encode_utf8(
        "\r\n"@,
    ) + encode_utf8("--"@ + boundary + "--\r\n"@)
}

fn append_bytes(out: &mut Vec<u8>, bytes: &[u8])
    ensures
        final(out)@ == old(out)@ + bytes@,
{
    let mut i: usize = 0;
    while i < bytes.len()
        invariant
            i <= bytes@.len(),
            out@ == old(out)@ + bytes@.take(i as int),
        decreases bytes@.len() - i,
    {
        out.push(bytes[i]);
        assert(old(out)@ + bytes@.take(i + 1) =~= (old(out)@ + bytes@.take(i as int)).push(
            bytes@[i as int],
        ));
        i += 1;
    }
    assert(bytes@.take(bytes@.len() as int) =~= bytes@);
}

fn append_text(out: &mut Vec<u8>, s: &String)
    ensures
        final(out)@ == old(out)@ + encode_utf8(s@),
{
    append_bytes(out, s.as_str().as_bytes());
}

pub fn build_upload_multipart(boundary: &str, filename: &str, bytes: &[u8]) -> (r: Vec<u8>)
    ensures
        r@ == multipart_body(boundary@, filename@, bytes@),
{
    let filename = sanitize_upload_filename(filename);
    let mut out: Vec<u8> = Vec::new();
    let mut first = owned("--");
    push_str(&mut first, boundary);
    push_str(&mut first, "\r\n");
    append_text(&mut out, &first);
    let mut second = owned("Content-Disposition: form-data; name=\"file\"; filename=\"");
    push_str(&mut second, filename.as_str());
    push_str(&mut second, "\"\r\n");
    append_text(&mut out, &second);
    let third = owned("Content-Type: application/octet-stream\r\n\r\n");
    append_text(&mut out, &third);
    append_bytes(&mut out, bytes);
    let fourth = owned("\r\n");
    append_text(&mut out, &fourth);
    let mut last = owned("--");
    push_str(&mut last, boundary);
    push_str(&mut last, "--\r\n");
    append_text(&mut out, &last);
    out
}

// ---------------------------------------------------------------------------
// Laws
// ---------------------------------------------------------------------------

/// A character that cannot end or open a query parameter.
pub open spec fn query_safe(c: char) -> bool {
    c != '&' && c != '=' && c != '#' && c != '?' && c != ' '
}

proof fn lemma_percent_encode_safe(bytes: Seq<u8>)
    ensures
        forall|i: int| 0 <= i < percent_encode(bytes).len() ==> query_safe(#[trigger] percent_encode(bytes)[i]),
    decreases bytes.len(),
{
    if bytes.len() > 0 {
        let b = bytes[0];
        lemma_percent_encode_safe(bytes.drop_first());
        let head = if is_unreserved(b) {
            seq![(b as u32) as char]
        } else {
            seq!['%', hex_upper(b / 16), hex_upper(b % 16)]
        };
        let rest = percent_encode(bytes.drop_first());
        assert(percent_encode(bytes) == head + rest);
        assert forall|i: int| 0 <= i < head.len() implies query_safe(#[trigger] head[i]) by {
            if is_unreserved(b) {
                assert(head[i] == (b as u32) as char);
                assert(((b as u32) as char) as u32 == b as u32);
            } else if i > 0 {
                let d = if i == 1 { b / 16 } else { b % 16 };
                assert(head[i] == hex_upper(d));
                assert(d < 16);
                if d < 10 {
                    assert((((48 + d) as u32) as char) as u32 == (48 + d) as u32);
                } else {
                    assert((((55 + d) as u32) as char) as u32 == (55 + d) as u32);
                }
            }
        }
        assert forall|i: int| 0 <= i < percent_encode(bytes).len() implies query_safe(
            #[trigger] percent_encode(bytes)[i],
        ) by {
            if i < head.len() {
                assert(percent_encode(bytes)[i] == head[i]);
            } else {
                assert(percent_encode(bytes)[i] == rest[i - head.len()]);
            }
        }
    }
}

/// A percent-encoded value holds no `&`, `=`, `#`, `?` or space, so it stays
/// inside its query parameter.
pub proof fn law_encoded_value_stays_in_its_parameter(s: Seq<char>)
    ensures
        forall|i: int| 0 <= i < url_encoded(s).len() ==> query_safe(#[trigger] url_encoded(s)[i]),
{
    lemma_percent_encode_safe(encode_utf8(s));
}

/// A download name holds no slash, backslash or quote, and is never blank.
pub proof fn law_download_name_is_safe(raw: Seq<char>)
    ensures
        forall|i: int|
            0 <= i < sanitized_download_name(raw).len() ==> {
                let c = #[trigger] sanitized_download_name(raw)[i];
                c != '/' && c != '\\' && c != '"'
            },
        !is_blank(sanitized_download_name(raw)),
{
    reveal_strlit("download");
    let s = replace_char(replace_char(replace_char(raw, '\\', '_'), '/', '_'), '"', '_');
    if is_blank(s) {
        crate::text::lemma_trim_shape("download"@);
        assert("download"@[0] == 'd');
    }
}

/// An upload name holds no line break, backslash or quote, so it cannot break
/// out of its `Content-Disposition` header, and is never blank.
pub proof fn law_upload_name_is_header_safe(raw: Seq<char>)
    ensures
        forall|i: int|
            0 <= i < sanitized_upload_name(raw).len() ==> {
                let c = #[trigger] sanitized_upload_name(raw)[i];
                c != '\r' && c != '\n' && c != '\\' && c != '"'
            },
        !is_blank(sanitized_upload_name(raw)),
{
    reveal_strlit("upload.bin");
    let s = replace_char(
        replace_char(replace_char(replace_char(raw, '\r', '_'), '\n', '_'), '\\', '_'),
        '"',
        '_',
    );
    if is_blank(s) {
        crate::text::lemma_trim_shape("upload.bin"@);
        assert("upload.bin"@[0] == 'u');
    }
}

} // verus!
