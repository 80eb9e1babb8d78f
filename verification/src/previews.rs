//! Writes on the timeline workspace go through a preview: the form is checked
//! and turned into a pending action, which runs only once confirmed in
//! execute mode. This module holds those checks.
use crate::models::TimelineNode;
use crate::shell::opt_view;
use crate::text::{blank, is_blank, join, join_strings, owned, same_text, trim, trimmed, views};
use crate::timeline::{parse_tags, split_trimmed};
use vstd::prelude::*;

verus! {

// ---------------------------------------------------------------------------
// Pending actions
// ---------------------------------------------------------------------------

/// A write waiting for confirmation.
#[derive(Clone, Debug, PartialEq)]
pub enum PendingAction {
    CreateNode { title: String, description: Option<String>, event_time: String, tags: Vec<String> },
    DeleteNode { node_id: String, title: String },
    UpdateNode {
        node_id: String,
        title: String,
        description: Option<String>,
        event_time: Option<String>,
        tags: Option<Vec<String>>,
    },
    MoveNode { node_id: String, new_time: String, new_sort_order: Option<i64> },
    /// `anchor_data` is JSON text.
    LinkEvidence { node_id: String, evidence_id: String, anchor_type: String, anchor_data: Option<String> },
    UnlinkEvidence {
        node_id: String,
        link_id: String,
        evidence_id: String,
        evidence_name: String,
        anchor_type: String,
    },
    UploadEvidenceFile { file_name: String, bytes: Vec<u8> },
    ParseEvidenceFile { file_id: String, original_name: String },
    CreatePerson {
        name: String,
        gender: Option<String>,
        phone: Option<String>,
        email: Option<String>,
        organization: Option<String>,
        position: Option<String>,
        role_type: Option<String>,
        role_detail: Option<String>,
        involved_date: Option<String>,
    },
    UpdatePersonNotes { person_id: String, person_name: String, notes: String },
    DeletePerson { person_id: String, person_name: String },
    LinkPersonCase {
        person_id: String,
        person_name: String,
        case_id: String,
        role_type: String,
        role_detail: Option<String>,
        involved_date: Option<String>,
    },
    MergeCasePersons { source_person_id: String, target_person_id: String },
    CreatePersonRelationship {
        from_person_id: String,
        to_person_id: String,
        rel_type: String,
        rel_detail: Option<String>,
    },
    DeletePersonRelationship {
        relationship_id: String,
        rel_type: String,
        from_person_name: String,
        to_person_name: String,
    },
}

/// The trimmed text, or nothing when it is blank.
pub open spec fn nonblank(s: Seq<char>) -> Option<Seq<char>> {
    if is_blank(s) {
        None
    } else {
        Some(trim(s))
    }
}

pub(crate) fn nonblank_text(s: &str) -> (r: Option<String>)
    ensures
        opt_view(r) == nonblank(s@),
{
    if blank(s) {
        None
    } else {
        Some(trimmed(s))
    }
}

/// The message refusing a write without an access token and a case.
pub open spec fn missing_session(token: Seq<char>, case_id: Seq<char>) -> Option<Seq<char>> {
    if is_blank(token) || is_blank(case_id) {
        Some("需要先填写 Access Token 和 Case ID。"@)
    } else {
        None
    }
}

// ---------------------------------------------------------------------------
// Who may write, which node is in focus, when a preview runs
// ---------------------------------------------------------------------------

/// Only owners and members of a case may write.
pub open spec fn read_only_for(role: Option<Seq<char>>) -> bool {
    !(role == Some("owner"@) || role == Some("member"@))
}

pub fn is_read_only(role: Option<&str>) -> (r: bool)
    ensures
        r == read_only_for(crate::api::opt_str_view(role)),
{
    match role {
        Some(r) => !(same_text(r, "owner") || same_text(r, "member")),
        None => true,
    }
}

/// The node the workspace acts on: the locked one while the context is
/// locked, else the selected one.
pub fn focus_node_id(context_locked: bool, locked_id: Option<String>, selected: Option<String>) -> (r: Option<String>)
    ensures
        r == (if context_locked {
            locked_id
        } else {
            selected
        }),
{
    if context_locked {
        locked_id
    } else {
        selected
    }
}

/// How the chat runs: answering, executing writes, or organising.
#[derive(Clone, Copy, Debug, PartialEq, Eq, Structural)]
pub enum ChatMode {
    Qa,
    Execute,
    Organize,
}

/// What confirming a preview does.
#[derive(Clone, Copy, Debug, PartialEq, Eq, Structural)]
pub enum Confirmation {
    /// There is nothing to confirm.
    Nothing,
    /// The write is refused.
    ReadOnly,
    /// The chat is not in execute mode.
    NotExecuting,
    /// The pending action runs.
    Run,
}

/// A pending action runs only for a writer in execute mode.
pub open spec fn confirmation_for(has_pending: bool, read_only: bool, mode: ChatMode) -> Confirmation {
    if !has_pending {
        Confirmation::Nothing
    } else if read_only {
        Confirmation::ReadOnly
    } else if mode != ChatMode::Execute {
        Confirmation::NotExecuting
    } else {
        Confirmation::Run
    }
}

/// A pending write runs exactly when the user may write and the chat is in
/// execute mode; a read-only user's writes never run.
pub proof fn law_writes_need_a_writer_in_execute_mode(has_pending: bool, read_only: bool, mode: ChatMode)
    ensures
        confirmation_for(has_pending, read_only, mode) == Confirmation::Run <==> (has_pending && !read_only
            && mode == ChatMode::Execute),
{
}

pub fn confirm_pending(has_pending: bool, read_only: bool, mode: ChatMode) -> (r: Confirmation)
    ensures
        r == confirmation_for(has_pending, read_only, mode),
{
    if !has_pending {
        Confirmation::Nothing
    } else if read_only {
        Confirmation::ReadOnly
    } else if mode != ChatMode::Execute {
        Confirmation::NotExecuting
    } else {
        Confirmation::Run
    }
}

// ---------------------------------------------------------------------------
// Node previews
// ---------------------------------------------------------------------------

/// Why the node-creation form is refused, if it is.
pub open spec fn create_node_refusal(token: Seq<char>, case_id: Seq<char>, title: Seq<char>, event_time: Seq<char>) -> Option<Seq<char>> {
    if missing_session(token, case_id) is Some {
        missing_session(token, case_id)
    } else if is_blank(title) || is_blank(event_time) {
        Some("创建节点需要 title + event_time。"@)
    } else {
        None
    }
}

/// The node-creation form: a trimmed title and date, a description where one
/// is given, and the comma-separated tags.
pub fn preview_create_node(
    token: &str,
    case_id: &str,
    title: &str,
    event_time: &str,
    description: &str,
    tags: &str,
) -> (r: Result<PendingAction, String>)
    ensures
        match r {
            Ok(PendingAction::CreateNode { title: t, description: d, event_time: e, tags: g }) => {
                &&& create_node_refusal(token@, case_id@, title@, event_time@) is None
                &&& t@ == trim(title@)
                &&& e@ == trim(event_time@)
                &&& opt_view(d) == nonblank(description@)
                &&& views(g@) == split_trimmed(tags@, ',')
            },
            Ok(_) => false,
            Err(m) => create_node_refusal(token@, case_id@, title@, event_time@) == Some(m@),
        },
{
    if blank(token) || blank(case_id) {
        return Err(owned("需要先填写 Access Token 和 Case ID。"));
    }
    if blank(title) || blank(event_time) {
        return Err(owned("创建节点需要 title + event_time。"));
    }
    Ok(
        PendingAction::CreateNode {
            title: trimmed(title),
            description: nonblank_text(description),
            event_time: trimmed(event_time),
            tags: parse_tags(tags),
        },
    )
}

/// The message asking for a node to be selected.
pub open spec fn no_focus() -> Seq<char> {
    "请先在时间轴上选中一个节点。"@
}

/// The node-update form: the node in focus, a title, the description and
/// date where given, and the tags (none when blank, which clears them).
pub fn preview_update_node(
    focus: Option<String>,
    title: &str,
    description: &str,
    event_time: &str,
    tags: &str,
) -> (r: Result<PendingAction, String>)
    ensures
        match r {
            Ok(PendingAction::UpdateNode { node_id, title: t, description: d, event_time: e, tags: g }) => {
                &&& focus == Some(node_id)
                &&& !is_blank(title@)
                &&& t@ == trim(title@)
                &&& opt_view(d) == nonblank(description@)
                &&& opt_view(e) == nonblank(event_time@)
                &&& g is Some && views(g->0@) == split_trimmed(tags@, ',')
            },
            Ok(_) => false,
            Err(m) => (focus is None && m@ == no_focus()) || (focus is Some && is_blank(title@) && m@
                == "title 不能为空。"@),
        },
{
    let node_id = match focus {
        Some(id) => id,
        None => return Err(owned("请先在时间轴上选中一个节点。")),
    };
    if blank(title) {
        return Err(owned("title 不能为空。"));
    }
    let tags_v = parse_tags(tags);
    Ok(
        PendingAction::UpdateNode {
            node_id,
            title: trimmed(title),
            description: nonblank_text(description),
            event_time: nonblank_text(event_time),
            tags: Some(tags_v),
        },
    )
}

// ---------------------------------------------------------------------------
// Integers as typed
// ---------------------------------------------------------------------------

/// Whether `c` is an ASCII digit.
pub open spec fn is_digit(c: char) -> bool {
    '0' <= c <= '9'
}

/// The value of a run of decimal digits.
pub open spec fn digits_value(ds: Seq<char>) -> int
    decreases ds.len(),
{
    if ds.len() == 0 {
        0
    } else {
        digits_value(ds.drop_last()) * 10 + ((ds.last() as u32) as int - ('0' as u32) as int)
    }
}

/// One or more ASCII digits.
pub open spec fn all_digits(ds: Seq<char>) -> bool {
    ds.len() > 0 && forall|i: int| 0 <= i < ds.len() ==> is_digit(#[trigger] ds[i])
}

/// The length of the sign that starts `s`: 1 for `-` or `+`, else 0.
pub open spec fn sign_len(s: Seq<char>) -> int {
    if s.len() > 0 && (s[0] == '-' || s[0] == '+') {
        1
    } else {
        0
    }
}

/// The integer that `s` spells (`i64::from_str`): an optional `+` or `-`
/// followed by one or more digits, and within `i64`.
pub open spec fn i64_text(s: Seq<char>) -> Option<i64> {
    let ds = s.skip(sign_len(s));
    let v = if s.len() > 0 && s[0] == '-' {
        -digits_value(ds)
    } else {
        digits_value(ds)
    };
    if all_digits(ds) && i64::MIN <= v <= i64::MAX {
        Some(v as i64)
    } else {
        None
    }
}

proof fn lemma_digits_grow(ds: Seq<char>, i: int)
    requires
        0 <= i <= ds.len(),
        forall|k: int| 0 <= k < ds.len() ==> is_digit(#[trigger] ds[k]),
    ensures
        digits_value(ds) >= digits_value(ds.take(i)),
        digits_value(ds) >= 0,
    decreases ds.len() - i,
{
    if i < ds.len() {
        assert(ds.take(i + 1).drop_last() =~= ds.take(i));
        assert(ds.take(i + 1).last() == ds[i]);
        lemma_digits_grow(ds, i + 1);
        lemma_digits_nonneg(ds.take(i));
    } else {
        assert(ds.take(i) =~= ds);
        lemma_digits_nonneg(ds);
    }
}

proof fn lemma_digits_nonneg(ds: Seq<char>)
    requires
        forall|k: int| 0 <= k < ds.len() ==> is_digit(#[trigger] ds[k]),
    ensures
        digits_value(ds) >= 0,
    decreases ds.len(),
{
    if ds.len() > 0 {
        let t = ds.drop_last();
        assert forall|k: int| 0 <= k < t.len() implies is_digit(#[trigger] t[k]) by {
            assert(t[k] == ds[k]);
        }
        lemma_digits_nonneg(t);
        assert(is_digit(ds[ds.len() - 1]));
    }
}

/// The integer that `s` spells, if any (`str::parse::<i64>`).
pub fn parse_i64(s: &str) -> (r: Option<i64>)
    ensures
        r == i64_text(s@),
{
    let v = crate::text::chars_of(s);
    let mut start: usize = 0;
    let mut negative = false;
    if v.len() > 0 && v[0] == '-' {
        negative = true;
        start = 1;
    } else if v.len() > 0 && v[0] == '+' {
        start = 1;
    }
    let ghost ds = v@.skip(start as int);
    assert(start == sign_len(s@));
    if start == v.len() {
        return None;
    }
    let mut acc: i128 = 0;
    let mut i: usize = start;
    while i < v.len()
        invariant
            start <= i <= v.len(),
            start < v.len(),
            v@ == s@,
            start == sign_len(s@),
            negative == (s@.len() > 0 && s@[0] == '-'),
            ds == v@.skip(start as int),
            forall|k: int| 0 <= k < i - start ==> is_digit(#[trigger] ds[k]),
            acc == digits_value(ds.take(i - start)),
            0 <= acc <= 0x8000_0000_0000_0000,
        decreases v.len() - i,
    {
        let c = v[i];
        if !('0' <= c && c <= '9') {
            assert(ds[i - start] == c);
            assert(!is_digit(ds[i - start]));
            return None;
        }
        let d = (c as u32 - '0' as u32) as i128;
        proof {
            assert(ds[i - start] == c);
            assert(ds.take(i - start + 1).drop_last() =~= ds.take(i - start));
            assert(ds.take(i - start + 1).last() == c);
        }
        acc = acc * 10 + d;
        if acc > 0x8000_0000_0000_0000 {
            proof {
                assert forall|k: int| 0 <= k < i - start + 1 implies is_digit(#[trigger] ds[k]) by {
                }
                let pre = ds.take(i - start + 1);
                if all_digits(ds) {
                    lemma_digits_grow(ds, i - start + 1);
                }
            }
            return None;
        }
        i += 1;
    }
    proof {
        assert(ds.take(i - start) =~= ds);
    }
    if negative {
        Some((-acc) as i64)
    } else if acc > 0x7fff_ffff_ffff_ffff {
        None
    } else {
        Some(acc as i64)
    }
}

/// The node-move form: the node in focus, a new date, and the new sort order
/// where one is typed (at least 1); refused where the sort order is not an
/// integer.
pub fn preview_move_node(focus: Option<String>, new_time: &str, sort_order: &str) -> (r: Result<PendingAction, String>)
    ensures
        match r {
            Ok(PendingAction::MoveNode { node_id, new_time: t, new_sort_order: o }) => {
                &&& focus == Some(node_id)
                &&& !is_blank(new_time@)
                &&& t@ == trim(new_time@)
                &&& o == (if is_blank(sort_order@) {
                    None
                } else {
                    match i64_text(trim(sort_order@)) {
                        Some(v) => Some(if v < 1 {
                            1i64
                        } else {
                            v
                        }),
                        None => None,
                    }
                })
                &&& !is_blank(sort_order@) ==> i64_text(trim(sort_order@)) is Some
            },
            Ok(_) => false,
            Err(m) => {
                ||| focus is None && m@ == no_focus()
                ||| focus is Some && is_blank(new_time@) && m@ == "移动节点需要 new_time。"@
                ||| focus is Some && !is_blank(new_time@) && !is_blank(sort_order@) && i64_text(
                    trim(sort_order@),
                ) is None && m@ == "new_sort_order 必须是数字。"@
            },
        },
{
    let node_id = match focus {
        Some(id) => id,
        None => return Err(owned("请先在时间轴上选中一个节点。")),
    };
    if blank(new_time) {
        return Err(owned("移动节点需要 new_time。"));
    }
    let new_sort_order = if blank(sort_order) {
        None
    } else {
        match parse_i64(trimmed(sort_order).as_str()) {
            Some(v) => Some(if v < 1 {
                1i64
            } else {
                v
            }),
            None => return Err(owned("new_sort_order 必须是数字。")),
        }
    };
    Ok(PendingAction::MoveNode { node_id, new_time: trimmed(new_time), new_sort_order })
}

/// The node-delete form: the node in focus (its id and title).
pub fn preview_delete_node(focus: Option<(String, String)>) -> (r: Result<PendingAction, String>)
    ensures
        match (r, focus) {
            (Ok(PendingAction::DeleteNode { node_id, title }), Some((id, t))) => node_id == id && title == t,
            (Err(m), None) => m@ == no_focus(),
            _ => false,
        },
{
    match focus {
        Some((node_id, title)) => Ok(PendingAction::DeleteNode { node_id, title }),
        None => Err(owned("请先在时间轴上选中一个节点。")),
    }
}

// ---------------------------------------------------------------------------
// Evidence links
// ---------------------------------------------------------------------------

/// What `serde_json::from_str::<serde_json::Value>` reports for `s`: nothing
/// when `s` is JSON, else the error's text.
pub uninterp spec fn json_syntax_error(s: Seq<char>) -> Option<Seq<char>>;

/// Calls `serde_json::from_str::<serde_json::Value>` and gives the error's
/// text, if any.
#[verifier::external_body]
fn json_error(s: &str) -> (r: Option<String>)
    ensures
        opt_view(r) == json_syntax_error(s@),
{
    match serde_json::from_str::<serde_json::Value>(s) {
        Ok(_) => None,
        Err(e) => Some(e.to_string()),
    }
}

/// Why the evidence-link form is refused, given the JSON check of its anchor
/// data, if it is.
pub open spec fn link_refusal(
    has_focus: bool,
    evidence_id: Seq<char>,
    anchor_type: Seq<char>,
    anchor_data: Seq<char>,
    anchor_error: Option<Seq<char>>,
) -> Option<Seq<char>> {
    if !has_focus {
        Some(no_focus())
    } else if is_blank(evidence_id) {
        Some("Evidence ID 不能为空。"@)
    } else if is_blank(anchor_type) {
        Some("Anchor type 不能为空。"@)
    } else if !is_blank(anchor_data) && anchor_error is Some {
        Some("anchor_data JSON 不合法: "@ + anchor_error->0)
    } else {
        None
    }
}

/// The evidence-link form, given what the JSON check of the trimmed anchor
/// data reported: the node in focus, the trimmed evidence id and anchor type,
/// and the anchor data where given.
pub fn link_evidence_preview(
    focus: Option<String>,
    evidence_id: &str,
    anchor_type: &str,
    anchor_data: &str,
    anchor_error: Option<String>,
) -> (r: Result<PendingAction, String>)
    ensures
        match r {
            Ok(PendingAction::LinkEvidence { node_id, evidence_id: e, anchor_type: t, anchor_data: d }) => {
                &&& link_refusal(focus is Some, evidence_id@, anchor_type@, anchor_data@, opt_view(anchor_error)) is None
                &&& focus == Some(node_id)
                &&& e@ == trim(evidence_id@)
                &&& t@ == trim(anchor_type@)
                &&& opt_view(d) == nonblank(anchor_data@)
            },
            Ok(_) => false,
            Err(m) => link_refusal(focus is Some, evidence_id@, anchor_type@, anchor_data@, opt_view(anchor_error))
                == Some(m@),
        },
{
    let node_id = match focus {
        Some(id) => id,
        None => return Err(owned("请先在时间轴上选中一个节点。")),
    };
    if blank(evidence_id) {
        return Err(owned("Evidence ID 不能为空。"));
    }
    if blank(anchor_type) {
        return Err(owned("Anchor type 不能为空。"));
    }
    let data = nonblank_text(anchor_data);
    if data.is_some() {
        if let Some(e) = anchor_error {
            let mut m = owned("anchor_data JSON 不合法: ");
            crate::text::push_str(&mut m, e.as_str());
            return Err(m);
        }
    }
    Ok(
        PendingAction::LinkEvidence {
            node_id,
            evidence_id: trimmed(evidence_id),
            anchor_type: trimmed(anchor_type),
            anchor_data: data,
        },
    )
}

/// The evidence-link form, its anchor data checked as JSON.
pub fn preview_link_evidence(
    focus: Option<String>,
    evidence_id: &str,
    anchor_type: &str,
    anchor_data: &str,
) -> (r: Result<PendingAction, String>)
    ensures
        match r {
            Ok(PendingAction::LinkEvidence { node_id, evidence_id: e, anchor_type: t, anchor_data: d }) => {
                &&& link_refusal(
                    focus is Some,
                    evidence_id@,
                    anchor_type@,
                    anchor_data@,
                    json_syntax_error(trim(anchor_data@)),
                ) is None
                &&& focus == Some(node_id)
                &&& e@ == trim(evidence_id@)
                &&& t@ == trim(anchor_type@)
                &&& opt_view(d) == nonblank(anchor_data@)
            },
            Ok(_) => false,
            Err(m) => link_refusal(
                focus is Some,
                evidence_id@,
                anchor_type@,
                anchor_data@,
                json_syntax_error(trim(anchor_data@)),
            ) == Some(m@),
        },
{
    let t = trimmed(anchor_data);
    let err = json_error(t.as_str());
    link_evidence_preview(focus, evidence_id, anchor_type, anchor_data, err)
}

// ---------------------------------------------------------------------------
// File uploads
// ---------------------------------------------------------------------------

/// The largest file the workspace uploads: 100 MiB.
pub const MAX_UPLOAD_BYTES: usize = 104857600;

/// Why a file upload is refused, if it is.
pub open spec fn upload_refusal(
    read_only: bool,
    token: Seq<char>,
    case_id: Seq<char>,
    picked: bool,
    size: int,
) -> Option<Seq<char>> {
    if read_only {
        Some("当前为只读权限，无法上传文件。"@)
    } else if missing_session(token, case_id) is Some {
        missing_session(token, case_id)
    } else if !picked {
        Some("请先选择一个文件。"@)
    } else if size > MAX_UPLOAD_BYTES {
        Some("文件过大（最大 100MB）。"@)
    } else {
        None
    }
}

/// The upload of a picked file (its name and bytes).
pub fn preview_upload_file(
    read_only: bool,
    token: &str,
    case_id: &str,
    picked: Option<(String, Vec<u8>)>,
) -> (r: Result<PendingAction, String>)
    ensures
        match r {
            Ok(PendingAction::UploadEvidenceFile { file_name, bytes }) => {
                &&& picked == Some((file_name, bytes))
                &&& upload_refusal(read_only, token@, case_id@, true, bytes@.len() as int) is None
            },
            Ok(_) => false,
            Err(m) => upload_refusal(
                read_only,
                token@,
                case_id@,
                picked is Some,
                match picked {
                    Some(p) => p.1@.len() as int,
                    None => 0,
                },
            ) == Some(m@),
        },
{
    if read_only {
        return Err(owned("当前为只读权限，无法上传文件。"));
    }
    if blank(token) || blank(case_id) {
        return Err(owned("需要先填写 Access Token 和 Case ID。"));
    }
    let (file_name, bytes) = match picked {
        Some(p) => p,
        None => return Err(owned("请先选择一个文件。")),
    };
    if bytes.len() > MAX_UPLOAD_BYTES {
        return Err(owned("文件过大（最大 100MB）。"));
    }
    Ok(PendingAction::UploadEvidenceFile { file_name, bytes })
}

// ---------------------------------------------------------------------------
// Person previews
// ---------------------------------------------------------------------------

/// The name shown for the opened person: its loaded name, else its id.
pub open spec fn person_label(person_id: Seq<char>, loaded_name: Option<Seq<char>>) -> Seq<char> {
    match loaded_name {
        Some(n) => n,
        None => person_id,
    }
}

fn person_label_text(person_id: &String, loaded_name: Option<String>) -> (r: String)
    ensures
        r@ == person_label(person_id@, opt_view(loaded_name)),
{
    match loaded_name {
        Some(n) => n,
        None => person_id.clone(),
    }
}

/// The message asking for a person to be opened.
pub open spec fn no_person() -> Seq<char> {
    "请先在人物列表里打开一个人物。"@
}

/// Saving the notes of the opened person, as typed.
pub fn preview_person_notes(
    read_only: bool,
    person_id: Option<String>,
    loaded_name: Option<String>,
    notes: &str,
) -> (r: Result<PendingAction, String>)
    ensures
        match r {
            Ok(PendingAction::UpdatePersonNotes { person_id: p, person_name, notes: n }) => {
                &&& !read_only && person_id == Some(p)
                &&& person_name@ == person_label(p@, opt_view(loaded_name))
                &&& n@ == notes@
            },
            Ok(_) => false,
            Err(m) => (read_only && m@ == "当前为只读权限，无法修改人物信息。"@) || (!read_only && person_id is None
                && m@ == no_person()),
        },
{
    if read_only {
        return Err(owned("当前为只读权限，无法修改人物信息。"));
    }
    let pid = match person_id {
        Some(p) => p,
        None => return Err(owned("请先在人物列表里打开一个人物。")),
    };
    let person_name = person_label_text(&pid, loaded_name);
    Ok(PendingAction::UpdatePersonNotes { person_id: pid, person_name, notes: owned(notes) })
}

/// Deleting the opened person.
pub fn preview_person_delete(read_only: bool, person_id: Option<String>, loaded_name: Option<String>) -> (r: Result<
    PendingAction,
    String,
>)
    ensures
        match r {
            Ok(PendingAction::DeletePerson { person_id: p, person_name }) => {
                &&& !read_only && person_id == Some(p)
                &&& person_name@ == person_label(p@, opt_view(loaded_name))
            },
            Ok(_) => false,
            Err(m) => (read_only && m@ == "当前为只读权限，无法删除人物。"@) || (!read_only && person_id is None
                && m@ == no_person()),
        },
{
    if read_only {
        return Err(owned("当前为只读权限，无法删除人物。"));
    }
    let pid = match person_id {
        Some(p) => p,
        None => return Err(owned("请先在人物列表里打开一个人物。")),
    };
    let person_name = person_label_text(&pid, loaded_name);
    Ok(PendingAction::DeletePerson { person_id: pid, person_name })
}

/// Why linking the opened person to a case is refused, if it is.
pub open spec fn link_case_refusal(read_only: bool, has_person: bool, case_id: Seq<char>, role_type: Seq<char>) -> Option<Seq<char>> {
    if read_only {
        Some("当前为只读权限，无法关联案件。"@)
    } else if !has_person {
        Some(no_person())
    } else if is_blank(case_id) {
        Some("Case ID 不能为空。"@)
    } else if is_blank(role_type) {
        Some("Role type 不能为空。"@)
    } else {
        None
    }
}

/// Linking the opened person to a case: the trimmed case id and role, with the
/// role detail and date where given.
pub fn preview_person_link_case(
    read_only: bool,
    person_id: Option<String>,
    loaded_name: Option<String>,
    case_id: &str,
    role_type: &str,
    role_detail: &str,
    involved_date: &str,
) -> (r: Result<PendingAction, String>)
    ensures
        match r {
            Ok(PendingAction::LinkPersonCase { person_id: p, person_name, case_id: c, role_type: t, role_detail: d, involved_date: i }) => {
                &&& link_case_refusal(read_only, person_id is Some, case_id@, role_type@) is None
                &&& person_id == Some(p)
                &&& person_name@ == person_label(p@, opt_view(loaded_name))
                &&& c@ == trim(case_id@)
                &&& t@ == trim(role_type@)
                &&& opt_view(d) == nonblank(role_detail@)
                &&& opt_view(i) == nonblank(involved_date@)
            },
            Ok(_) => false,
            Err(m) => link_case_refusal(read_only, person_id is Some, case_id@, role_type@) == Some(m@),
        },
{
    if read_only {
        return Err(owned("当前为只读权限，无法关联案件。"));
    }
    let pid = match person_id {
        Some(p) => p,
        None => return Err(owned("请先在人物列表里打开一个人物。")),
    };
    if blank(case_id) {
        return Err(owned("Case ID 不能为空。"));
    }
    if blank(role_type) {
        return Err(owned("Role type 不能为空。"));
    }
    let person_name = person_label_text(&pid, loaded_name);
    Ok(
        PendingAction::LinkPersonCase {
            person_id: pid,
            person_name,
            case_id: trimmed(case_id),
            role_type: trimmed(role_type),
            role_detail: nonblank_text(role_detail),
            involved_date: nonblank_text(involved_date),
        },
    )
}

/// The person form's fields.
pub struct PersonForm {
    pub name: String,
    pub gender: String,
    pub phone: String,
    pub email: String,
    pub organization: String,
    pub position: String,
    pub role_type: String,
    pub role_detail: String,
    pub involved_date: String,
}

/// Why creating a person is refused, if it is.
pub open spec fn create_person_refusal(read_only: bool, token: Seq<char>, case_id: Seq<char>, name: Seq<char>) -> Option<Seq<char>> {
    if read_only {
        Some("当前为只读权限，无法创建人物。"@)
    } else if missing_session(token, case_id) is Some {
        missing_session(token, case_id)
    } else if is_blank(name) {
        Some("Name 不能为空。"@)
    } else {
        None
    }
}

/// Creating a person: the trimmed name, and each other field where given.
pub fn preview_person_create(read_only: bool, token: &str, case_id: &str, form: &PersonForm) -> (r: Result<
    PendingAction,
    String,
>)
    ensures
        match r {
            Ok(PendingAction::CreatePerson { name, gender, phone, email, organization, position, role_type, role_detail, involved_date }) => {
                &&& create_person_refusal(read_only, token@, case_id@, form.name@) is None
                &&& name@ == trim(form.name@)
                &&& opt_view(gender) == nonblank(form.gender@)
                &&& opt_view(phone) == nonblank(form.phone@)
                &&& opt_view(email) == nonblank(form.email@)
                &&& opt_view(organization) == nonblank(form.organization@)
                &&& opt_view(position) == nonblank(form.position@)
                &&& opt_view(role_type) == nonblank(form.role_type@)
                &&& opt_view(role_detail) == nonblank(form.role_detail@)
                &&& opt_view(involved_date) == nonblank(form.involved_date@)
            },
            Ok(_) => false,
            Err(m) => create_person_refusal(read_only, token@, case_id@, form.name@) == Some(m@),
        },
{
    if read_only {
        return Err(owned("当前为只读权限，无法创建人物。"));
    }
    if blank(token) || blank(case_id) {
        return Err(owned("需要先填写 Access Token 和 Case ID。"));
    }
    if blank(form.name.as_str()) {
        return Err(owned("Name 不能为空。"));
    }
    Ok(
        PendingAction::CreatePerson {
            name: trimmed(form.name.as_str()),
            gender: nonblank_text(form.gender.as_str()),
            phone: nonblank_text(form.phone.as_str()),
            email: nonblank_text(form.email.as_str()),
            organization: nonblank_text(form.organization.as_str()),
            position: nonblank_text(form.position.as_str()),
            role_type: nonblank_text(form.role_type.as_str()),
            role_detail: nonblank_text(form.role_detail.as_str()),
            involved_date: nonblank_text(form.involved_date.as_str()),
        },
    )
}

/// Why merging two persons is refused, if it is.
pub open spec fn merge_refusal(read_only: bool, token: Seq<char>, case_id: Seq<char>, source: Seq<char>, target: Seq<char>) -> Option<Seq<char>> {
    if read_only {
        Some("当前为只读权限，无法合并人物。"@)
    } else if missing_session(token, case_id) is Some {
        missing_session(token, case_id)
    } else if is_blank(source) || is_blank(target) {
        Some("Source/Target Person ID 不能为空。"@)
    } else if trim(source) == trim(target) {
        Some("Source/Target Person ID 不能相同。"@)
    } else {
        None
    }
}

/// Merging one person of the case into another (two different trimmed ids).
pub fn preview_merge_case_persons(read_only: bool, token: &str, case_id: &str, source: &str, target: &str) -> (r:
    Result<PendingAction, String>)
    ensures
        match r {
            Ok(PendingAction::MergeCasePersons { source_person_id, target_person_id }) => {
                &&& merge_refusal(read_only, token@, case_id@, source@, target@) is None
                &&& source_person_id@ == trim(source@)
                &&& target_person_id@ == trim(target@)
            },
            Ok(_) => false,
            Err(m) => merge_refusal(read_only, token@, case_id@, source@, target@) == Some(m@),
        },
{
    if read_only {
        return Err(owned("当前为只读权限，无法合并人物。"));
    }
    if blank(token) || blank(case_id) {
        return Err(owned("需要先填写 Access Token 和 Case ID。"));
    }
    let s = trimmed(source);
    let t = trimmed(target);
    if s.as_str().is_empty() || t.as_str().is_empty() {
        return Err(owned("Source/Target Person ID 不能为空。"));
    }
    if same_text(s.as_str(), t.as_str()) {
        return Err(owned("Source/Target Person ID 不能相同。"));
    }
    Ok(PendingAction::MergeCasePersons { source_person_id: s, target_person_id: t })
}

/// Why creating a relationship is refused, if it is.
pub open spec fn relationship_refusal(
    read_only: bool,
    token: Seq<char>,
    case_id: Seq<char>,
    from: Seq<char>,
    to: Seq<char>,
    rel_type: Seq<char>,
) -> Option<Seq<char>> {
    if read_only {
        Some("当前为只读权限，无法创建人物关系。"@)
    } else if missing_session(token, case_id) is Some {
        missing_session(token, case_id)
    } else if is_blank(from) || is_blank(to) {
        Some("From/To Person ID 不能为空。"@)
    } else if trim(from) == trim(to) {
        Some("From/To Person ID 不能相同。"@)
    } else if is_blank(rel_type) {
        Some("rel_type 不能为空。"@)
    } else {
        None
    }
}

/// Creating a relationship between two different persons, of a type, with a
/// detail where given.
pub fn preview_create_relationship(
    read_only: bool,
    token: &str,
    case_id: &str,
    from: &str,
    to: &str,
    rel_type: &str,
    detail: &str,
) -> (r: Result<PendingAction, String>)
    ensures
        match r {
            Ok(PendingAction::CreatePersonRelationship { from_person_id, to_person_id, rel_type: t, rel_detail }) => {
                &&& relationship_refusal(read_only, token@, case_id@, from@, to@, rel_type@) is None
                &&& from_person_id@ == trim(from@)
                &&& to_person_id@ == trim(to@)
                &&& t@ == trim(rel_type@)
                &&& opt_view(rel_detail) == nonblank(detail@)
            },
            Ok(_) => false,
            Err(m) => relationship_refusal(read_only, token@, case_id@, from@, to@, rel_type@) == Some(m@),
        },
{
    if read_only {
        return Err(owned("当前为只读权限，无法创建人物关系。"));
    }
    if blank(token) || blank(case_id) {
        return Err(owned("需要先填写 Access Token 和 Case ID。"));
    }
    let f = trimmed(from);
    let t = trimmed(to);
    if f.as_str().is_empty() || t.as_str().is_empty() {
        return Err(owned("From/To Person ID 不能为空。"));
    }
    if same_text(f.as_str(), t.as_str()) {
        return Err(owned("From/To Person ID 不能相同。"));
    }
    if blank(rel_type) {
        return Err(owned("rel_type 不能为空。"));
    }
    Ok(
        PendingAction::CreatePersonRelationship {
            from_person_id: f,
            to_person_id: t,
            rel_type: trimmed(rel_type),
            rel_detail: nonblank_text(detail),
        },
    )
}

// ---------------------------------------------------------------------------
// The node editor
// ---------------------------------------------------------------------------

/// The node editor's fields.
#[derive(Clone, Debug, PartialEq)]
pub struct NodeEditor {
    pub title: String,
    pub description: String,
    pub event_time: String,
    pub tags: String,
    pub move_date: String,
    pub move_sort_order: String,
}

/// The editor filled from a node: its title, description (empty without
/// one), date, tags joined by commas, the date again as the move target, and
/// an empty sort order.
pub fn node_editor_fields(node: &TimelineNode) -> (r: NodeEditor)
    ensures
        r.title@ == node.title@,
        r.description@ == match node.description {
            Some(d) => d@,
            None => Seq::<char>::empty(),
        },
        r.event_time@ == node.event_time@,
        r.tags@ == join(views(node.tags@), ","@),
        r.move_date@ == node.event_time@,
        r.move_sort_order@ == Seq::<char>::empty(),
{
    NodeEditor {
        title: node.title.clone(),
        description: match &node.description {
            Some(d) => d.clone(),
            None => String::new(),
        },
        event_time: node.event_time.clone(),
        tags: join_strings(&node.tags, ","),
        move_date: node.event_time.clone(),
        move_sort_order: String::new(),
    }
}

} // verus!
