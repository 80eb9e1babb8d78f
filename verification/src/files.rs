//! The evidence files view: reader modes, polling, translation placeholders,
//! status badges and derived file names.
use crate::forms::case_refusal;
use crate::models::{
    EvidenceFileChunkItem, EvidenceFileChunkListData, EvidenceFileDetail, EvidenceFileSummary,
    EvidenceFileTranslationSummary,
};
use crate::previews::MAX_UPLOAD_BYTES;
use crate::shell::opt_view;
use crate::text::{
    blank, byte_len, is_blank, chars_of, measure_bytes, owned, push_str, same_text, string_of, trim, trimmed,
};
use vstd::prelude::*;

verus! {

/// How the file reader shows a translated file.
#[derive(Debug, Clone, Copy, PartialEq, Eq, Structural)]
pub enum FileReaderViewMode {
    Bilingual,
    Zh,
    Source,
}

impl FileReaderViewMode {
    pub open spec fn code(self) -> Seq<char> {
        match self {
            FileReaderViewMode::Bilingual => "bilingual"@,
            FileReaderViewMode::Zh => "zh"@,
            FileReaderViewMode::Source => "source"@,
        }
    }

    pub open spec fn caption(self) -> Seq<char> {
        match self {
            FileReaderViewMode::Bilingual => "双语"@,
            FileReaderViewMode::Zh => "中文"@,
            FileReaderViewMode::Source => "原文"@,
        }
    }

    /// The mode as the API names it.
    pub fn as_str(self) -> (r: &'static str)
        ensures
            r@ == self.code(),
    {
        match self {
            FileReaderViewMode::Bilingual => "bilingual",
            FileReaderViewMode::Zh => "zh",
            FileReaderViewMode::Source => "source",
        }
    }

    /// The mode as the reader labels it.
    pub fn label(self) -> (r: &'static str)
        ensures
            r@ == self.caption(),
    {
        match self {
            FileReaderViewMode::Bilingual => "双语",
            FileReaderViewMode::Zh => "中文",
            FileReaderViewMode::Source => "原文",
        }
    }
}

/// The reader opens in the bilingual view.
pub fn default_file_reader_view_mode() -> (r: FileReaderViewMode)
    ensures
        r == FileReaderViewMode::Bilingual,
{
    FileReaderViewMode::Bilingual
}

/// A file is polled while it is still being parsed or translated.
pub fn file_requires_polling(file: &EvidenceFileSummary) -> (r: bool)
    ensures
        r == (file.parse_status@ == "processing"@ || file.translation.translation_status@
            == "processing"@),
{
    same_text(file.parse_status.as_str(), "processing") || same_text(
        file.translation.translation_status.as_str(),
        "processing",
    )
}

/// What the reader shows in place of a missing translation, by the chunk's
/// (trimmed) translation status.
pub open spec fn placeholder_text(status: Seq<char>) -> Seq<char> {
    let s = trim(status);
    if s == "failed"@ {
        "翻译失败，可重试"@
    } else if s == "processing"@ || s == "pending"@ {
        "翻译中，稍后刷新"@
    } else {
        "暂无中文译文"@
    }
}

pub fn translated_placeholder(chunk: &EvidenceFileChunkItem) -> (r: String)
    ensures
        r@ == placeholder_text(chunk.translation_status@),
{
    let s = trimmed(chunk.translation_status.as_str());
    if same_text(s.as_str(), "failed") {
        owned("翻译失败，可重试")
    } else if same_text(s.as_str(), "processing") || same_text(s.as_str(), "pending") {
        owned("翻译中，稍后刷新")
    } else {
        owned("暂无中文译文")
    }
}

/// The badge class for a (trimmed) processing status.
pub open spec fn status_class_text(status: Seq<char>) -> Seq<char> {
    let s = trim(status);
    if s == "done"@ {
        "badge badge--ok"@
    } else if s == "failed"@ {
        "badge badge--bad"@
    } else if s == "partial"@ {
        "badge badge--warn"@
    } else if s == "processing"@ {
        "badge badge--run"@
    } else {
        "badge badge--warn"@
    }
}

pub fn status_badge_class(status: &str) -> (r: &'static str)
    ensures
        r@ == status_class_text(status@),
{
    let s = trimmed(status);
    let s = s.as_str();
    if same_text(s, "done") {
        "badge badge--ok"
    } else if same_text(s, "failed") {
        "badge badge--bad"
    } else if same_text(s, "partial") {
        "badge badge--warn"
    } else if same_text(s, "processing") {
        "badge badge--run"
    } else {
        "badge badge--warn"
    }
}

/// The last position of the character `c` in `s`, if any (`str::rfind`).
pub open spec fn last_index_of(s: Seq<char>, c: char) -> Option<int>
    decreases s.len(),
{
    if s.len() == 0 {
        None
    } else if s.last() == c {
        Some(s.len() - 1)
    } else {
        last_index_of(s.drop_last(), c)
    }
}

/// The name of the parsed text of a file: the original name, trimmed, without
/// what follows its last dot, trimmed again, with `.json`; `parsed.json` when
/// nothing is left.
pub open spec fn parsed_name(original_name: Seq<char>) -> Seq<char> {
    let t = trim(original_name);
    let base = match last_index_of(t, '.') {
        Some(i) => t.take(i),
        None => t,
    };
    let b = trim(base);
    if b.len() == 0 {
        "parsed.json"@
    } else {
        b + ".json"@
    }
}

fn last_dot(v: &Vec<char>) -> (r: Option<usize>)
    ensures
        match r {
            Some(i) => i < v.len() && last_index_of(v@, '.') == Some(i as int),
            None => last_index_of(v@, '.') is None,
        },
{
    let mut j = v.len();
    assert(v@.take(v.len() as int) =~= v@);
    while j > 0
        invariant
            j <= v.len(),
            last_index_of(v@, '.') == last_index_of(v@.take(j as int), '.'),
        decreases j,
    {
        let ghost t = v@.take(j as int);
        assert(t.drop_last() =~= v@.take(j - 1));
        if v[j - 1] == '.' {
            return Some(j - 1);
        }
        j -= 1;
    }
    assert(v@.take(0) =~= Seq::<char>::empty());
    None
}

pub fn fallback_parsed_name(original_name: &str) -> (r: String)
    ensures
        r@ == parsed_name(original_name@),
{
    let t = trimmed(original_name);
    let tv = chars_of(t.as_str());
    let base = match last_dot(&tv) {
        Some(i) => string_of(&tv, 0, i),
        None => string_of(&tv, 0, tv.len()),
    };
    assert(tv@.subrange(0, tv@.len() as int) =~= tv@);
    proof {
        if let Some(i) = last_index_of(tv@, '.') {
            assert(tv@.subrange(0, i) =~= tv@.take(i));
        }
    }
    let b = trimmed(base.as_str());
    if b.as_str().is_empty() {
        owned("parsed.json")
    } else {
        let mut out = b;
        push_str(&mut out, ".json");
        out
    }
}

/// `s` when it fits in `max` bytes, else its first `max` characters and `...`.
pub open spec fn truncated_chars(s: Seq<char>, max: int) -> Seq<char> {
    if byte_len(s) <= max {
        s
    } else if s.len() <= max {
        s + "..."@
    } else {
        s.take(max) + "..."@
    }
}

/// `s` cut to `max` characters with `...` appended, when it is longer than
/// `max` bytes.
pub fn truncate(s: &str, max: usize) -> (r: String)
    ensures
        r@ == truncated_chars(s@, max as int),
{
    let v = chars_of(s);
    if measure_bytes(&v, max).0 {
        return owned(s);
    }
    let n = if v.len() <= max {
        v.len()
    } else {
        max
    };
    let mut out = string_of(&v, 0, n);
    assert(v@.subrange(0, v@.len() as int) =~= v@);
    assert(v@.subrange(0, n as int) =~= v@.take(n as int));
    push_str(&mut out, "...");
    out
}

// ---------------------------------------------------------------------------
// The page's buttons
// ---------------------------------------------------------------------------

/// What "Upload" does.
#[derive(Clone, Debug, PartialEq)]
pub enum UploadPlan {
    /// Nothing is sent; the message says why.
    Refused { message: String },
    /// An upload is already running: the click is ignored.
    Busy,
    /// The picked file is sent to the case, with the trimmed token and case id.
    Send { token: String, case_id: String },
}

/// Why "Upload" is refused, if it is, given the picked file's size.
pub open spec fn upload_form_refusal(token: Seq<char>, case_id: Seq<char>, picked_size: Option<usize>, uploading: bool) -> Option<
    Seq<char>,
> {
    if case_refusal(token, case_id) is Some {
        case_refusal(token, case_id)
    } else if picked_size is None {
        Some("Pick a file first"@)
    } else if uploading {
        None
    } else if picked_size->0 > MAX_UPLOAD_BYTES {
        Some("File too large (max 100MB)"@)
    } else {
        None
    }
}

/// "Upload", given the size of the picked file (if one is picked) and whether
/// an upload is running.
pub fn plan_upload(token: &str, case_id: &str, picked_size: Option<usize>, uploading: bool) -> (r: UploadPlan)
    ensures
        match r {
            UploadPlan::Refused { message } => upload_form_refusal(token@, case_id@, picked_size, uploading) == Some(
                message@,
            ),
            UploadPlan::Busy => case_refusal(token@, case_id@) is None && picked_size is Some && uploading,
            UploadPlan::Send { token: t, case_id: c } => {
                &&& case_refusal(token@, case_id@) is None
                &&& picked_size is Some && !uploading && picked_size->0 <= MAX_UPLOAD_BYTES
                &&& t@ == trim(token@)
                &&& c@ == trim(case_id@)
            },
        },
{
    if blank(token) {
        return UploadPlan::Refused { message: owned("Missing access token") };
    }
    if blank(case_id) {
        return UploadPlan::Refused { message: owned("Missing case_id") };
    }
    let size = match picked_size {
        Some(n) => n,
        None => return UploadPlan::Refused { message: owned("Pick a file first") },
    };
    if uploading {
        return UploadPlan::Busy;
    }
    if size > MAX_UPLOAD_BYTES {
        return UploadPlan::Refused { message: owned("File too large (max 100MB)") };
    }
    UploadPlan::Send { token: trimmed(token), case_id: trimmed(case_id) }
}

/// The status line after an upload: the stored name and its parse status.
pub open spec fn uploaded_text(original_name: Seq<char>, parse_status: Seq<char>) -> Seq<char> {
    "Uploaded: "@ + original_name + " ("@ + parse_status + ")"@
}

pub fn upload_done_message(original_name: &str, parse_status: &str) -> (r: String)
    ensures
        r@ == uploaded_text(original_name@, parse_status@),
{
    let mut out = owned("Uploaded: ");
    push_str(&mut out, original_name);
    push_str(&mut out, " (");
    push_str(&mut out, parse_status);
    push_str(&mut out, ")");
    out
}

/// What a poll after "Parse" reports: nothing while the file is processing,
/// else whether the parse succeeded, with the error when it failed.
pub open spec fn parse_poll_text(parse_status: Seq<char>, original_name: Seq<char>, parse_error: Option<Seq<char>>) -> Option<
    Seq<char>,
> {
    if parse_status == "processing"@ {
        None
    } else if parse_status == "done"@ {
        Some("Parsed: "@ + original_name)
    } else {
        Some(
            "Parse failed: "@ + original_name + " ("@ + (match parse_error {
                Some(e) => e,
                None => Seq::empty(),
            }) + ")"@,
        )
    }
}

pub fn parse_poll_message(parse_status: &str, original_name: &str, parse_error: Option<String>) -> (r: Option<String>)
    ensures
        match r {
            Some(m) => parse_poll_text(parse_status@, original_name@, opt_view(parse_error)) == Some(
                m@,
            ),
            None => parse_poll_text(parse_status@, original_name@, opt_view(parse_error)) is None,
        },
{
    if same_text(parse_status, "processing") {
        return None;
    }
    if same_text(parse_status, "done") {
        let mut out = owned("Parsed: ");
        push_str(&mut out, original_name);
        return Some(out);
    }
    let mut out = owned("Parse failed: ");
    push_str(&mut out, original_name);
    push_str(&mut out, " (");
    match parse_error {
        Some(e) => push_str(&mut out, e.as_str()),
        None => {},
    }
    push_str(&mut out, ")");
    Some(out)
}

/// The reader loads the file's chunks once it is parsed and has a translation
/// split into chunks.
pub fn reader_loads_chunks(parse_status: &str, chunk_count: i64) -> (r: bool)
    ensures
        r == (parse_status@ == "done"@ && chunk_count > 0),
{
    same_text(parse_status, "done") && chunk_count > 0
}

// ---------------------------------------------------------------------------
// The reader card
// ---------------------------------------------------------------------------

/// How many pages of `page_size` chunks a list of `total` chunks fills: at
/// least one, also for an empty list.
pub open spec fn chunk_pages(total: int, page_size: int) -> int {
    let n = if total > 1 {
        total
    } else {
        1
    };
    let pages = (n + page_size - 1) / page_size;
    if pages > 1 {
        pages
    } else {
        1
    }
}

pub fn chunk_total_pages(total: i64, page_size: i64) -> (r: i64)
    requires
        page_size > 0,
        (if total > 1 {
            total as int
        } else {
            1
        }) + page_size <= i64::MAX,
    ensures
        r == chunk_pages(total as int, page_size as int),
{
    let n: i64 = if total > 1 {
        total
    } else {
        1
    };
    let pages: i64 = (n + page_size - 1) / page_size;
    if pages > 1 {
        pages
    } else {
        1
    }
}

/// The page count is the least number of pages that holds every chunk (and
/// one page when there is none).
pub proof fn law_chunk_pages_hold_every_chunk(total: int, page_size: int)
    requires
        page_size > 0,
    ensures
        chunk_pages(total, page_size) >= 1,
        total <= chunk_pages(total, page_size) * page_size,
        total > 0 ==> (chunk_pages(total, page_size) - 1) * page_size < total,
{
    let n = if total > 1 {
        total
    } else {
        1
    };
    let q = (n + page_size - 1) / page_size;
    assert(q * page_size <= n + page_size - 1 < q * page_size + page_size) by (nonlinear_arith)
        requires
            page_size > 0,
            q == (n + page_size - 1) / page_size,
    ;
    assert(q >= 1) by (nonlinear_arith)
        requires
            page_size > 0,
            n >= 1,
            q * page_size + page_size > n + page_size - 1,
    ;
    assert((q - 1) * page_size == q * page_size - page_size) by (nonlinear_arith);
    assert(q * page_size >= page_size) by (nonlinear_arith)
        requires
            q >= 1,
            page_size > 0,
    ;
}

/// The languages the reader names: the source language or `-`, and the target
/// language or `zh-CN`.
pub fn reader_languages(translation: &EvidenceFileTranslationSummary) -> (r: (String, String))
    ensures
        r.0@ == (match translation.source_language {
            Some(l) => l@,
            None => "-"@,
        }),
        r.1@ == (match translation.target_language {
            Some(l) => l@,
            None => "zh-CN"@,
        }),
{
    let source = match &translation.source_language {
        Some(l) => l.clone(),
        None => owned("-"),
    };
    let target = match &translation.target_language {
        Some(l) => l.clone(),
        None => owned("zh-CN"),
    };
    (source, target)
}

/// The file's translation error, shown when it is not blank.
pub fn translation_error_banner(translation: &EvidenceFileTranslationSummary) -> (r: Option<String>)
    ensures
        match translation.translation_error {
            Some(e) => if is_blank(e@) {
                r is None
            } else {
                r == Some(e)
            },
            None => r is None,
        },
{
    match &translation.translation_error {
        Some(e) => if blank(e.as_str()) {
            None
        } else {
            Some(e.clone())
        },
        None => None,
    }
}

/// Which of the reader's buttons are enabled.
#[derive(Clone, Copy, Debug, PartialEq, Eq)]
pub struct ReaderButtons {
    pub parsed_json: bool,
    pub retry_translation: bool,
    pub prev_chunk: bool,
    pub next_chunk: bool,
}

/// "Parsed JSON" needs a parsed file, "Retry Translation" a parsed file and a
/// writer; "Prev" and "Next" move between the chunk pages.
pub fn reader_buttons(parse_status: &str, can_write: bool, current_page: i64, total_pages: i64) -> (r: ReaderButtons)
    ensures
        r.parsed_json == (parse_status@ == "done"@),
        r.retry_translation == (can_write && parse_status@ == "done"@),
        r.prev_chunk == (current_page > 1),
        r.next_chunk == (current_page < total_pages),
{
    let parsed = same_text(parse_status, "done");
    ReaderButtons {
        parsed_json: parsed,
        retry_translation: can_write && parsed,
        prev_chunk: current_page > 1,
        next_chunk: current_page < total_pages,
    }
}

/// What the reader card shows below its header.
#[derive(Clone, Debug, PartialEq)]
pub enum ReaderPane {
    /// The file is not parsed yet.
    Waiting,
    /// The file is parsed but has no chunks: its parsed text, if any.
    Legacy { parsed_text: Option<String> },
    /// The page's chunks are still loading.
    Loading,
    /// The page holds no chunk.
    Empty,
    /// The page's chunk. `original` is its source text, shown unless the
    /// Chinese view is on; `chinese` its translation or the placeholder, shown
    /// unless the original view is on; `error` the chunk's error when its
    /// translation failed.
    Chunk {
        label: String,
        kind: String,
        error: Option<String>,
        original: Option<String>,
        chinese: Option<String>,
    },
}

/// The error shown above a chunk: its translation error, when the translation
/// failed and the error is not blank.
pub open spec fn chunk_error(chunk: EvidenceFileChunkItem) -> Option<String> {
    match chunk.translation_error {
        Some(e) => if !is_blank(e@) && chunk.translation_status@ == "failed"@ {
            Some(e)
        } else {
            None
        },
        None => None,
    }
}

/// The chunk's text in the Chinese view: its translation, else the placeholder.
pub open spec fn chinese_text(chunk: EvidenceFileChunkItem) -> Seq<char> {
    match chunk.translated_text {
        Some(t) => t@,
        None => placeholder_text(chunk.translation_status@),
    }
}

/// The chunk's source text, or nothing.
pub open spec fn original_text(chunk: EvidenceFileChunkItem) -> Seq<char> {
    match chunk.source_text {
        Some(t) => t@,
        None => Seq::empty(),
    }
}

pub fn reader_pane(
    detail: &EvidenceFileDetail,
    chunk_count: i64,
    chunks: &Option<EvidenceFileChunkListData>,
    mode: FileReaderViewMode,
) -> (r: ReaderPane)
    ensures
        detail.parse_status@ != "done"@ ==> r is Waiting,
        detail.parse_status@ == "done"@ && chunk_count == 0 ==> r == (ReaderPane::Legacy {
            parsed_text: detail.parsed_text,
        }),
        detail.parse_status@ == "done"@ && chunk_count != 0 ==> match chunks {
            None => r is Loading,
            Some(list) => if list.items.len() == 0 {
                r is Empty
            } else {
                let chunk = list.items[0];
                r matches ReaderPane::Chunk { label, kind, error, original, chinese } && {
                    &&& label == chunk.display_label
                    &&& kind == chunk.chunk_kind
                    &&& error == chunk_error(chunk)
                    &&& opt_view(original) == (if mode != FileReaderViewMode::Zh {
                        Some(original_text(chunk))
                    } else {
                        None
                    })
                    &&& opt_view(chinese) == (if mode != FileReaderViewMode::Source {
                        Some(chinese_text(chunk))
                    } else {
                        None
                    })
                }
            },
        },
{
    if !same_text(detail.parse_status.as_str(), "done") {
        return ReaderPane::Waiting;
    }
    if chunk_count == 0 {
        let parsed_text = match &detail.parsed_text {
            Some(t) => Some(t.clone()),
            None => None,
        };
        return ReaderPane::Legacy { parsed_text };
    }
    let list = match chunks {
        Some(l) => l,
        None => return ReaderPane::Loading,
    };
    if list.items.len() == 0 {
        return ReaderPane::Empty;
    }
    let chunk = &list.items[0];
    let error = match &chunk.translation_error {
        Some(e) => if !blank(e.as_str()) && same_text(chunk.translation_status.as_str(), "failed") {
            Some(e.clone())
        } else {
            None
        },
        None => None,
    };
    let original = if mode != FileReaderViewMode::Zh {
        match &chunk.source_text {
            Some(t) => Some(t.clone()),
            None => Some(String::new()),
        }
    } else {
        None
    };
    let chinese = if mode != FileReaderViewMode::Source {
        match &chunk.translated_text {
            Some(t) => Some(t.clone()),
            None => Some(translated_placeholder(chunk)),
        }
    } else {
        None
    };
    ReaderPane::Chunk {
        label: chunk.display_label.clone(),
        kind: chunk.chunk_kind.clone(),
        error,
        original,
        chinese,
    }
}

// ---------------------------------------------------------------------------
// The file table
// ---------------------------------------------------------------------------

/// A row of the file table.
#[derive(Clone, Debug, PartialEq)]
pub struct FileRow {
    /// The file is open in the reader.
    pub selected: bool,
    /// The parse error, cut to 120 characters, when the parse failed.
    pub error: Option<String>,
    /// The file type, cut to 40 characters.
    pub file_type: String,
    pub parse_badge: &'static str,
    pub translate_badge: &'static str,
    /// The Chinese index is still being built.
    pub building: bool,
    pub can_open_reader: bool,
    pub open_label: &'static str,
    pub can_download_parsed: bool,
    /// The name the parsed text downloads under.
    pub parsed_name: String,
    pub can_reparse: bool,
}

/// The parse error a row shows: the error, cut to 120 characters, when the
/// parse failed and the error is not blank.
pub open spec fn row_error(f: EvidenceFileSummary) -> Option<Seq<char>> {
    match f.parse_error {
        Some(e) => if !is_blank(e@) && f.parse_status@ == "failed"@ {
            Some(truncated_chars(e@, 120))
        } else {
            None
        },
        None => None,
    }
}

pub fn file_row(f: &EvidenceFileSummary, selected_file_id: &Option<String>, can_write: bool) -> (r: FileRow)
    ensures
        r.selected == (opt_view(*selected_file_id) == Some(f.id@)),
        opt_view(r.error) == row_error(*f),
        r.file_type@ == truncated_chars(f.file_type@, 40),
        r.parse_badge@ == status_class_text(f.parse_status@),
        r.translate_badge@ == status_class_text(f.translation.translation_status@),
        r.building == f.translation.translation_incomplete,
        r.can_open_reader == (f.parse_status@ == "done"@),
        r.open_label@ == (if r.selected {
            "Reading"@
        } else {
            "Open Reader"@
        }),
        r.can_download_parsed == (f.parse_status@ == "done"@),
        r.parsed_name@ == parsed_name(f.original_name@),
        r.can_reparse == (can_write && f.parse_status@ != "processing"@),
{
    let selected = match selected_file_id {
        Some(id) => same_text(id.as_str(), f.id.as_str()),
        None => false,
    };
    let error = match &f.parse_error {
        Some(e) => if !blank(e.as_str()) && same_text(f.parse_status.as_str(), "failed") {
            Some(truncate(e.as_str(), 120))
        } else {
            None
        },
        None => None,
    };
    let done = same_text(f.parse_status.as_str(), "done");
    FileRow {
        selected,
        error,
        file_type: truncate(f.file_type.as_str(), 40),
        parse_badge: status_badge_class(f.parse_status.as_str()),
        translate_badge: status_badge_class(f.translation.translation_status.as_str()),
        building: f.translation.translation_incomplete,
        can_open_reader: done,
        open_label: if selected {
            "Reading"
        } else {
            "Open Reader"
        },
        can_download_parsed: done,
        parsed_name: fallback_parsed_name(f.original_name.as_str()),
        can_reparse: can_write && !same_text(f.parse_status.as_str(), "processing"),
    }
}

} // verus!
