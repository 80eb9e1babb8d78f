//! The search view: language modes, object-type filters and match labels.
use crate::shell::opt_view;
use crate::text::{blank, is_blank, join, owned, push_str, same_text, trim, trimmed, views};
use vstd::prelude::*;

verus! {

/// The language a search runs in.
#[derive(Debug, Clone, Copy, PartialEq, Eq, Structural)]
pub enum SearchLanguageMode {
    Zh,
    Source,
    Bilingual,
}

impl SearchLanguageMode {
    pub open spec fn code(self) -> Seq<char> {
        match self {
            SearchLanguageMode::Zh => "zh"@,
            SearchLanguageMode::Source => "source"@,
            SearchLanguageMode::Bilingual => "bilingual"@,
        }
    }

    pub open spec fn caption(self) -> Seq<char> {
        match self {
            SearchLanguageMode::Zh => "中文"@,
            SearchLanguageMode::Source => "原文"@,
            SearchLanguageMode::Bilingual => "双语"@,
        }
    }

    /// The mode as the API names it.
    pub fn as_str(self) -> (r: &'static str)
        ensures
            r@ == self.code(),
    {
        match self {
            SearchLanguageMode::Zh => "zh",
            SearchLanguageMode::Source => "source",
            SearchLanguageMode::Bilingual => "bilingual",
        }
    }

    /// The mode as the search view labels it.
    pub fn label(self) -> (r: &'static str)
        ensures
            r@ == self.caption(),
    {
        match self {
            SearchLanguageMode::Zh => "中文",
            SearchLanguageMode::Source => "原文",
            SearchLanguageMode::Bilingual => "双语",
        }
    }
}

/// The object types selected, in the order case, evidence, node, person.
pub open spec fn selected_types(case_on: bool, evidence_on: bool, node_on: bool, person_on: bool) -> Seq<
    Seq<char>,
> {
    (if case_on {
        seq!["case"@]
    } else {
        Seq::empty()
    }) + (if evidence_on {
        seq!["evidence"@]
    } else {
        Seq::empty()
    }) + (if node_on {
        seq!["node"@]
    } else {
        Seq::empty()
    }) + (if person_on {
        seq!["person"@]
    } else {
        Seq::empty()
    })
}

/// The object-type filter of a search: the selected types joined by commas, or
/// `None` when no type is selected.
pub fn build_object_types(case_on: bool, evidence_on: bool, node_on: bool, person_on: bool) -> (r:
    Option<String>)
    ensures
        selected_types(case_on, evidence_on, node_on, person_on).len() == 0 ==> r is None,
        selected_types(case_on, evidence_on, node_on, person_on).len() > 0 ==> r is Some
            && r->0@ == join(selected_types(case_on, evidence_on, node_on, person_on), ","@),
{
    let mut out: Vec<String> = Vec::new();
    if case_on {
        out.push(owned("case"));
    }
    if evidence_on {
        out.push(owned("evidence"));
    }
    if node_on {
        out.push(owned("node"));
    }
    if person_on {
        out.push(owned("person"));
    }
    assert(views(out@) =~= selected_types(case_on, evidence_on, node_on, person_on));
    if out.len() == 0 {
        None
    } else {
        Some(crate::text::join_strings(&out, ","))
    }
}

pub open spec fn language_mode_text(mode: Seq<char>) -> Seq<char> {
    if mode == "zh"@ {
        "中文搜索"@
    } else if mode == "source"@ {
        "原文搜索"@
    } else if mode == "bilingual"@ {
        "双语搜索"@
    } else {
        "搜索"@
    }
}

/// The caption of a search by its language mode.
pub fn language_mode_label(mode: &str) -> (r: &'static str)
    ensures
        r@ == language_mode_text(mode@),
{
    if same_text(mode, "zh") {
        "中文搜索"
    } else if same_text(mode, "source") {
        "原文搜索"
    } else if same_text(mode, "bilingual") {
        "双语搜索"
    } else {
        "搜索"
    }
}

pub open spec fn matched_language_text(language: Seq<char>) -> Seq<char> {
    if language == "translated"@ {
        "命中中文"@
    } else if language == "source"@ {
        "命中原文"@
    } else {
        "命中"@
    }
}

/// The caption of the language a result matched in.
pub fn matched_language_label(language: &str) -> (r: &'static str)
    ensures
        r@ == matched_language_text(language@),
{
    if same_text(language, "translated") {
        "命中中文"
    } else if same_text(language, "source") {
        "命中原文"
    } else {
        "命中"
    }
}

/// The object-type filter of a search: the selected types joined by commas,
/// or none when no type is selected.
pub open spec fn type_filter(case_on: bool, evidence_on: bool, node_on: bool, person_on: bool) -> Option<Seq<char>> {
    if selected_types(case_on, evidence_on, node_on, person_on).len() == 0 {
        None
    } else {
        Some(join(selected_types(case_on, evidence_on, node_on, person_on), ","@))
    }
}

/// A search as the search view sends it.
#[derive(Clone, Debug, PartialEq)]
pub struct SearchRequest {
    pub token: String,
    pub keyword: String,
    pub object_types: Option<String>,
    pub case_id: Option<String>,
    pub language_mode: String,
}

/// The search the view runs: none without a token and a keyword; else the
/// trimmed token and keyword, the selected object types, the trimmed current
/// case when the case filter is on and a case is set, and the language mode.
pub fn search_request(
    token: &str,
    keyword: &str,
    case_id: &str,
    use_case_filter: bool,
    case_on: bool,
    evidence_on: bool,
    node_on: bool,
    person_on: bool,
    mode: SearchLanguageMode,
) -> (r: Option<SearchRequest>)
    ensures
        r is None <==> (is_blank(token@) || is_blank(keyword@)),
        r matches Some(q) ==> {
            &&& q.token@ == trim(token@)
            &&& q.keyword@ == trim(keyword@)
            &&& opt_view(q.object_types) == type_filter(case_on, evidence_on, node_on, person_on)
            &&& opt_view(q.case_id) == (if use_case_filter && !is_blank(case_id@) {
                Some(trim(case_id@))
            } else {
                None
            })
            &&& q.language_mode@ == mode.code()
        },
{
    if blank(token) || blank(keyword) {
        return None;
    }
    let object_types = build_object_types(case_on, evidence_on, node_on, person_on);
    let case_filter = if use_case_filter && !blank(case_id) {
        Some(trimmed(case_id))
    } else {
        None
    };
    Some(
        SearchRequest {
            token: trimmed(token),
            keyword: trimmed(keyword),
            object_types,
            case_id: case_filter,
            language_mode: owned(mode.as_str()),
        },
    )
}

/// The suggestions the view asks for: none without a token and a keyword,
/// else the trimmed token and keyword.
pub fn suggestion_request(token: &str, keyword: &str) -> (r: Option<(String, String)>)
    ensures
        r is None <==> (is_blank(token@) || is_blank(keyword@)),
        r matches Some((t, k)) ==> t@ == trim(token@) && k@ == trim(keyword@),
{
    if blank(token) || blank(keyword) {
        None
    } else {
        Some((trimmed(token), trimmed(keyword)))
    }
}

// ---------------------------------------------------------------------------
// A result row
// ---------------------------------------------------------------------------

/// What a result row shows of a search result.
#[derive(Clone, Debug, PartialEq)]
pub struct SearchHit {
    pub object_type: String,
    pub object_id: String,
    pub title: String,
    pub display_label: Option<String>,
    pub content: Option<String>,
    pub language_mode: Option<String>,
    pub matched_language: Option<String>,
    pub source_fallback: Option<bool>,
    pub translation_incomplete: Option<bool>,
    pub snippet_source: Option<String>,
    pub snippet_translated: Option<String>,
    pub file_name: Option<String>,
    pub chunk_id: Option<String>,
}

/// A result row: the label under the title, the badges, the lines of text
/// and the id shown in code.
#[derive(Clone, Debug, PartialEq)]
pub struct SearchRow {
    pub label: Option<String>,
    pub badges: Vec<String>,
    pub lines: Vec<String>,
    pub code: String,
}

pub open spec fn is_evidence(h: SearchHit) -> bool {
    h.object_type@ == "evidence"@
}

/// A text that is shown when it is not blank.
pub open spec fn shown(o: Option<String>) -> Option<Seq<char>> {
    match o {
        Some(t) => if is_blank(t@) {
            None
        } else {
            Some(t@)
        },
        None => None,
    }
}

pub open spec fn one(o: Option<Seq<char>>) -> Seq<Seq<char>> {
    match o {
        Some(t) => seq![t],
        None => Seq::empty(),
    }
}

/// The badges of an evidence result: its search's language mode, the
/// language it matched in, and whether it fell back to the source or its
/// Chinese index is still being built. Other results have none.
pub open spec fn row_badges(h: SearchHit) -> Seq<Seq<char>> {
    if !is_evidence(h) {
        Seq::empty()
    } else {
        one(
            match h.language_mode {
                Some(m) => Some(language_mode_text(m@)),
                None => None,
            },
        ) + one(
            match h.matched_language {
                Some(l) => Some(matched_language_text(l@)),
                None => None,
            },
        ) + one(
            if h.source_fallback == Some(true) {
                Some("原文回退"@)
            } else {
                None
            },
        ) + one(
            if h.translation_incomplete == Some(true) {
                Some("中文索引构建中"@)
            } else {
                None
            },
        )
    }
}

/// The lines of a result: for evidence its source and Chinese snippets and its
/// file name (when it differs from the title), each when not blank; for other
/// results their content, when not blank.
pub open spec fn row_lines(h: SearchHit) -> Seq<Seq<char>> {
    if is_evidence(h) {
        one(
            match shown(h.snippet_source) {
                Some(t) => Some("原文: "@ + t),
                None => None,
            },
        ) + one(
            match shown(h.snippet_translated) {
                Some(t) => Some("中文: "@ + t),
                None => None,
            },
        ) + one(
            match shown(h.file_name) {
                Some(f) => if f != h.title@ {
                    Some("文件: "@ + f)
                } else {
                    None
                },
                None => None,
            },
        )
    } else {
        one(shown(h.content))
    }
}

/// The id of a result row: an evidence result's chunk, else the object.
pub open spec fn row_code(h: SearchHit) -> Seq<char> {
    match h.chunk_id {
        Some(c) => if is_evidence(h) {
            c@
        } else {
            h.object_id@
        },
        None => h.object_id@,
    }
}

fn shown_text(o: &Option<String>) -> (r: Option<String>)
    ensures
        opt_view(r) == shown(*o),
{
    match o {
        Some(t) => if blank(t.as_str()) {
            None
        } else {
            Some(t.clone())
        },
        None => None,
    }
}

fn push_some(v: &mut Vec<String>, o: Option<String>)
    ensures
        views(final(v)@) == views(old(v)@) + one(opt_view(o)),
{
    let ghost before = v@;
    match o {
        Some(t) => {
            v.push(t);
            proof {
                assert(views(v@) =~= views(before) + one(opt_view(Some(t))));
            }
        },
        None => {
            proof {
                assert(views(v@) =~= views(before) + one(opt_view(o)));
            }
        },
    }
}

fn prefixed(prefix: &str, o: Option<String>) -> (r: Option<String>)
    ensures
        opt_view(r) == (match opt_view(o) {
            Some(t) => Some(prefix@ + t),
            None => None,
        }),
{
    match o {
        Some(t) => {
            let mut out = owned(prefix);
            push_str(&mut out, t.as_str());
            Some(out)
        },
        None => None,
    }
}

pub fn search_row(h: &SearchHit) -> (r: SearchRow)
    ensures
        opt_view(r.label) == shown(h.display_label),
        views(r.badges@) == row_badges(*h),
        views(r.lines@) == row_lines(*h),
        r.code@ == row_code(*h),
{
    let evidence = same_text(h.object_type.as_str(), "evidence");
    let mut badges: Vec<String> = Vec::new();
    let mut lines: Vec<String> = Vec::new();
    if evidence {
        push_some(
            &mut badges,
            match &h.language_mode {
                Some(m) => Some(owned(language_mode_label(m.as_str()))),
                None => None,
            },
        );
        push_some(
            &mut badges,
            match &h.matched_language {
                Some(l) => Some(owned(matched_language_label(l.as_str()))),
                None => None,
            },
        );
        push_some(
            &mut badges,
            if h.source_fallback == Some(true) {
                Some(owned("原文回退"))
            } else {
                None
            },
        );
        push_some(
            &mut badges,
            if h.translation_incomplete == Some(true) {
                Some(owned("中文索引构建中"))
            } else {
                None
            },
        );
        push_some(&mut lines, prefixed("原文: ", shown_text(&h.snippet_source)));
        push_some(&mut lines, prefixed("中文: ", shown_text(&h.snippet_translated)));
        let file = match shown_text(&h.file_name) {
            Some(f) => if same_text(f.as_str(), h.title.as_str()) {
                None
            } else {
                Some(f)
            },
            None => None,
        };
        push_some(&mut lines, prefixed("文件: ", file));
        proof {
            assert(views(badges@) =~= row_badges(*h));
            assert(views(lines@) =~= row_lines(*h));
        }
    } else {
        push_some(&mut lines, shown_text(&h.content));
        proof {
            assert(views(badges@) =~= row_badges(*h));
            assert(views(lines@) =~= row_lines(*h));
        }
    }
    let code = match &h.chunk_id {
        Some(c) => if evidence {
            c.clone()
        } else {
            h.object_id.clone()
        },
        None => h.object_id.clone(),
    };
    SearchRow { label: shown_text(&h.display_label), badges, lines, code }
}

} // verus!
