//! The chat box of the timeline workspace: what a message asks for.
//!
//! A message that starts with `/` is a command (`/help`, `/case`, `/search`,
//! `/tags`, `/jump`, `/create`, `/open`, `/history`, `/dedupe`, `/rels`,
//! `/graph`, `/merge`, `/rel`); any other message is matched by keywords to
//! the tool panel it talks about.
use crate::text::{
    chars_of, chars_within, contains_seq, contains_text, is_blank, is_boundary, is_boundary_at, occurs_at,
    is_ws, join, join_strings, lower_ascii, lower_ascii_chars, measure_bytes, same_text,
    starts_with, starts_with_chars, string_of, trim, trimmed, views, word_end, word_len,
};
use crate::timeline::strip_repeated;
use vstd::prelude::*;

verus! {

// ---------------------------------------------------------------------------
// What a message asks for
// ---------------------------------------------------------------------------

/// The tool panel of the chat.
#[derive(Clone, Copy, Debug, PartialEq, Eq, Structural)]
pub enum ChatTool {
    /// No tool panel open.
    NoPanel,
    CreateNode,
    FocusNode,
    Exports,
    Files,
    Search,
    Persons,
}

/// The command whose arguments are missing or malformed.
#[derive(Clone, Copy, Debug, PartialEq, Eq, Structural)]
pub enum UsageTopic {
    Case,
    Jump,
    Open,
    OpenPerson,
    OpenNode,
    History,
    Merge,
    Relate,
}

/// What a chat message asks for.
#[derive(Clone, Debug, PartialEq)]
pub enum ChatInput {
    /// Nothing but whitespace.
    Blank,
    Help,
    SwitchCase { case_id: String },
    /// `/search`: the keyword, blank when none was given.
    Search { query: String },
    /// `/tags`: the tag filter, blank to clear it.
    FilterTags { tags: String },
    Jump { date: String },
    /// `/create`: the arguments of the node-creation command.
    CreateNode { args: String },
    OpenPerson { person_id: String },
    OpenNode { node_id: String },
    History { target_type: String, target_id: String },
    Dedupe,
    Relationships,
    Graph,
    Merge { source: String, target: String },
    MergeIntoItself,
    Relate { from: String, to: String, rel_type: String, detail: Option<String> },
    RelateToItself,
    Usage { topic: UsageTopic },
    UnknownCommand,
    /// Free text that names a tool, with a search keyword for the search tool.
    OpenTool { tool: ChatTool, query: Option<String> },
    /// Free text that names no tool.
    Chatter,
}

/// The text of a `ChatInput`.
pub enum ChatIntent {
    Blank,
    Help,
    SwitchCase { case_id: Seq<char> },
    Search { query: Seq<char> },
    FilterTags { tags: Seq<char> },
    Jump { date: Seq<char> },
    CreateNode { args: Seq<char> },
    OpenPerson { person_id: Seq<char> },
    OpenNode { node_id: Seq<char> },
    History { target_type: Seq<char>, target_id: Seq<char> },
    Dedupe,
    Relationships,
    Graph,
    Merge { source: Seq<char>, target: Seq<char> },
    MergeIntoItself,
    Relate { from: Seq<char>, to: Seq<char>, rel_type: Seq<char>, detail: Option<Seq<char>> },
    RelateToItself,
    Usage { topic: UsageTopic },
    UnknownCommand,
    OpenTool { tool: ChatTool, query: Option<Seq<char>> },
    Chatter,
}

pub open spec fn opt_text(o: Option<String>) -> Option<Seq<char>> {
    match o {
        Some(s) => Some(s@),
        None => None,
    }
}

pub open spec fn intent_of(c: ChatInput) -> ChatIntent {
    match c {
        ChatInput::Blank => ChatIntent::Blank,
        ChatInput::Help => ChatIntent::Help,
        ChatInput::SwitchCase { case_id } => ChatIntent::SwitchCase { case_id: case_id@ },
        ChatInput::Search { query } => ChatIntent::Search { query: query@ },
        ChatInput::FilterTags { tags } => ChatIntent::FilterTags { tags: tags@ },
        ChatInput::Jump { date } => ChatIntent::Jump { date: date@ },
        ChatInput::CreateNode { args } => ChatIntent::CreateNode { args: args@ },
        ChatInput::OpenPerson { person_id } => ChatIntent::OpenPerson { person_id: person_id@ },
        ChatInput::OpenNode { node_id } => ChatIntent::OpenNode { node_id: node_id@ },
        ChatInput::History { target_type, target_id } => ChatIntent::History {
            target_type: target_type@,
            target_id: target_id@,
        },
        ChatInput::Dedupe => ChatIntent::Dedupe,
        ChatInput::Relationships => ChatIntent::Relationships,
        ChatInput::Graph => ChatIntent::Graph,
        ChatInput::Merge { source, target } => ChatIntent::Merge {
            source: source@,
            target: target@,
        },
        ChatInput::MergeIntoItself => ChatIntent::MergeIntoItself,
        ChatInput::Relate { from, to, rel_type, detail } => ChatIntent::Relate {
            from: from@,
            to: to@,
            rel_type: rel_type@,
            detail: opt_text(detail),
        },
        ChatInput::RelateToItself => ChatIntent::RelateToItself,
        ChatInput::Usage { topic } => ChatIntent::Usage { topic },
        ChatInput::UnknownCommand => ChatIntent::UnknownCommand,
        ChatInput::OpenTool { tool, query } => ChatIntent::OpenTool { tool, query: opt_text(query) },
        ChatInput::Chatter => ChatIntent::Chatter,
    }
}

// ---------------------------------------------------------------------------
// Words
// ---------------------------------------------------------------------------

/// A word is no longer than its text, and not empty where the text starts
/// with a non-whitespace character.
pub proof fn lemma_word_len_bounds(s: Seq<char>)
    ensures
        word_len(s) <= s.len(),
        s.len() > 0 && !is_ws(s[0]) ==> word_len(s) >= 1,
    decreases s.len(),
{
    if s.len() > 0 && !is_ws(s[0]) {
        lemma_word_len_bounds(s.drop_first());
    }
}

/// `s.split_whitespace()`: the maximal runs of non-whitespace characters.
pub open spec fn words(s: Seq<char>) -> Seq<Seq<char>>
    decreases s.len(),
{
    if s.len() == 0 {
        Seq::empty()
    } else if is_ws(s[0]) {
        words(s.drop_first())
    } else {
        proof {
            lemma_word_len_bounds(s);
        }
        seq![s.take(word_len(s) as int)] + words(s.skip(word_len(s) as int))
    }
}

/// The `i`-th word, or nothing past the last one.
pub open spec fn word_at(ws: Seq<Seq<char>>, i: int) -> Seq<char> {
    if 0 <= i < ws.len() {
        ws[i]
    } else {
        Seq::empty()
    }
}

/// The words from the `n`-th on.
pub open spec fn words_from(ws: Seq<Seq<char>>, n: int) -> Seq<Seq<char>> {
    if n < ws.len() {
        ws.skip(n)
    } else {
        Seq::empty()
    }
}

proof fn lemma_words_skip_ws(s: Seq<char>, i: int)
    requires
        0 <= i < s.len(),
        is_ws(s[i]),
    ensures
        words(s.skip(i)) == words(s.skip(i + 1)),
{
    assert(s.skip(i).drop_first() =~= s.skip(i + 1));
}

/// The words of `v`.
fn words_of(v: &Vec<char>) -> (r: Vec<String>)
    ensures
        views(r@) == words(v@),
{
    let mut r: Vec<String> = Vec::new();
    let mut i: usize = 0;
    assert(v@.skip(0) =~= v@);
    assert(views(r@) =~= Seq::<Seq<char>>::empty());
    while i < v.len()
        invariant
            i <= v.len(),
            words(v@) == views(r@) + words(v@.skip(i as int)),
        decreases v.len() - i,
    {
        if crate::text::is_ws_char(v[i]) {
            proof {
                lemma_words_skip_ws(v@, i as int);
            }
            i += 1;
        } else {
            let j = word_end(v, i);
            let w = string_of(v, i, j);
            proof {
                let s = v@.skip(i as int);
                assert(s[0] == v@[i as int]);
                lemma_word_len_bounds(s);
                assert(s.take(word_len(s) as int) =~= w@);
                assert(s.skip(word_len(s) as int) =~= v@.skip(j as int));
                assert(views(r@.push(w)) =~= views(r@).push(w@));
                assert(views(r@) + words(s) =~= views(r@).push(w@) + words(v@.skip(j as int)));
            }
            r.push(w);
            i = j;
        }
    }
    assert(v@.skip(v.len() as int) =~= Seq::<char>::empty());
    assert(views(r@) + Seq::<Seq<char>>::empty() =~= views(r@));
    r
}

/// The `i`-th word, trimmed (empty past the last one).
fn word_or_empty(ws: &Vec<String>, i: usize) -> (r: String)
    ensures
        r@ == trim(word_at(views(ws@), i as int)),
{
    if i < ws.len() {
        trimmed(ws[i].as_str())
    } else {
        let empty = String::new();
        trimmed(empty.as_str())
    }
}

// ---------------------------------------------------------------------------
// Commands
// ---------------------------------------------------------------------------

/// The text after the `/` of a command, trimmed.
pub open spec fn slash_body(text: Seq<char>) -> Seq<char> {
    trim(text.skip(1))
}

/// The command's name: its first word, lower-cased (ASCII).
pub open spec fn command_word(body: Seq<char>) -> Seq<char> {
    lower_ascii(trim(body.take(word_len(body) as int)))
}

/// The command's arguments: what follows the whitespace character after its
/// name, trimmed.
pub open spec fn command_rest(body: Seq<char>) -> Seq<char> {
    trim(
        if word_len(body) < body.len() {
            body.skip(word_len(body) as int + 1)
        } else {
            Seq::empty()
        },
    )
}

/// `/open person <id>`, `/open node <id>` or `/open <node id>`; the prefixes
/// are matched without regard to ASCII case.
pub open spec fn open_intent(rest: Seq<char>) -> ChatIntent {
    if is_blank(rest) {
        ChatIntent::Usage { topic: UsageTopic::Open }
    } else {
        let low = lower_ascii(rest);
        if starts_with(low, "person "@) {
            let pid = trim(rest.skip(7));
            if pid.len() == 0 {
                ChatIntent::Usage { topic: UsageTopic::OpenPerson }
            } else {
                ChatIntent::OpenPerson { person_id: pid }
            }
        } else {
            let id = if starts_with(low, "node "@) {
                trim(rest.skip(5))
            } else {
                trim(rest)
            };
            if id.len() == 0 {
                ChatIntent::Usage { topic: UsageTopic::OpenNode }
            } else {
                ChatIntent::OpenNode { node_id: id }
            }
        }
    }
}

/// The history target type: `file` and `evidence` stand for `evidence_file`.
pub open spec fn history_type(t: Seq<char>) -> Seq<char> {
    if t == "file"@ || t == "evidence"@ {
        "evidence_file"@
    } else {
        t
    }
}

/// `/history <type> <id>`.
pub open spec fn history_intent(rest: Seq<char>) -> ChatIntent {
    let ws = words(rest);
    let tt = lower_ascii(trim(word_at(ws, 0)));
    let tid = trim(word_at(ws, 1));
    if is_blank(rest) || tt.len() == 0 || tid.len() == 0 {
        ChatIntent::Usage { topic: UsageTopic::History }
    } else {
        ChatIntent::History { target_type: history_type(tt), target_id: tid }
    }
}

/// `/merge <source> <target>`: two different persons.
pub open spec fn merge_intent(rest: Seq<char>) -> ChatIntent {
    let ws = words(rest);
    let source = trim(word_at(ws, 0));
    let target = trim(word_at(ws, 1));
    if is_blank(rest) || source.len() == 0 || target.len() == 0 {
        ChatIntent::Usage { topic: UsageTopic::Merge }
    } else if source == target {
        ChatIntent::MergeIntoItself
    } else {
        ChatIntent::Merge { source, target }
    }
}

/// `/rel <from> <to> <type> [detail...]`: two different persons, a relation
/// type, and the remaining words joined by spaces as detail when there are any.
pub open spec fn relate_intent(rest: Seq<char>) -> ChatIntent {
    let ws = words(rest);
    let from = trim(word_at(ws, 0));
    let to = trim(word_at(ws, 1));
    let rel_type = trim(word_at(ws, 2));
    let detail = trim(join(words_from(ws, 3), " "@));
    if is_blank(rest) || from.len() == 0 || to.len() == 0 || rel_type.len() == 0 {
        ChatIntent::Usage { topic: UsageTopic::Relate }
    } else if from == to {
        ChatIntent::RelateToItself
    } else {
        ChatIntent::Relate {
            from,
            to,
            rel_type,
            detail: if detail.len() == 0 {
                None
            } else {
                Some(detail)
            },
        }
    }
}

/// What a `/` command asks for.
pub open spec fn slash_intent(text: Seq<char>) -> ChatIntent {
    let body = slash_body(text);
    let cmd = command_word(body);
    let rest = command_rest(body);
    if cmd == "help"@ || cmd == "h"@ {
        ChatIntent::Help
    } else if cmd == "case"@ {
        if is_blank(rest) {
            ChatIntent::Usage { topic: UsageTopic::Case }
        } else {
            ChatIntent::SwitchCase { case_id: rest }
        }
    } else if cmd == "search"@ {
        ChatIntent::Search { query: rest }
    } else if cmd == "tags"@ {
        ChatIntent::FilterTags { tags: rest }
    } else if cmd == "jump"@ {
        if is_blank(rest) {
            ChatIntent::Usage { topic: UsageTopic::Jump }
        } else {
            ChatIntent::Jump { date: rest }
        }
    } else if cmd == "create"@ || cmd == "c"@ {
        ChatIntent::CreateNode { args: rest }
    } else if cmd == "open"@ {
        open_intent(rest)
    } else if cmd == "history"@ {
        history_intent(rest)
    } else if cmd == "dedupe"@ {
        ChatIntent::Dedupe
    } else if cmd == "rels"@ || cmd == "relationships"@ {
        ChatIntent::Relationships
    } else if cmd == "graph"@ {
        ChatIntent::Graph
    } else if cmd == "merge"@ {
        merge_intent(rest)
    } else if cmd == "rel"@ {
        relate_intent(rest)
    } else {
        ChatIntent::UnknownCommand
    }
}

fn open_input(rest: &Vec<char>) -> (r: ChatInput)
    ensures
        intent_of(r) == open_intent(rest@),
{
    let rs = string_of(rest, 0, rest.len());
    assert(rest@.subrange(0, rest.len() as int) =~= rest@);
    if crate::text::blank(rs.as_str()) {
        return ChatInput::Usage { topic: UsageTopic::Open };
    }
    let low = lower_ascii_chars(rest);
    proof {
        reveal_strlit("person ");
        reveal_strlit("node ");
    }
    if starts_with_chars(&low, "person ") {
        let pid = trimmed(string_of(rest, 7, rest.len()).as_str());
        assert(rest@.subrange(7, rest.len() as int) =~= rest@.skip(7));
        if pid.as_str().is_empty() {
            ChatInput::Usage { topic: UsageTopic::OpenPerson }
        } else {
            ChatInput::OpenPerson { person_id: pid }
        }
    } else {
        let id = if starts_with_chars(&low, "node ") {
            assert(rest@.subrange(5, rest.len() as int) =~= rest@.skip(5));
            trimmed(string_of(rest, 5, rest.len()).as_str())
        } else {
            trimmed(rs.as_str())
        };
        if id.as_str().is_empty() {
            ChatInput::Usage { topic: UsageTopic::OpenNode }
        } else {
            ChatInput::OpenNode { node_id: id }
        }
    }
}

fn history_input(rest: &Vec<char>) -> (r: ChatInput)
    ensures
        intent_of(r) == history_intent(rest@),
{
    let rs = string_of(rest, 0, rest.len());
    assert(rest@.subrange(0, rest.len() as int) =~= rest@);
    let ws = words_of(rest);
    let t0 = word_or_empty(&ws, 0);
    let tt_chars = lower_ascii_chars(&chars_of(t0.as_str()));
    let tt = string_of(&tt_chars, 0, tt_chars.len());
    assert(tt_chars@.subrange(0, tt_chars.len() as int) =~= tt_chars@);
    let tid = word_or_empty(&ws, 1);
    if crate::text::blank(rs.as_str()) || tt.as_str().is_empty() || tid.as_str().is_empty() {
        return ChatInput::Usage { topic: UsageTopic::History };
    }
    let target_type = if same_text(tt.as_str(), "file") || same_text(tt.as_str(), "evidence") {
        crate::text::owned("evidence_file")
    } else {
        tt
    };
    ChatInput::History { target_type, target_id: tid }
}

fn merge_input(rest: &Vec<char>) -> (r: ChatInput)
    ensures
        intent_of(r) == merge_intent(rest@),
{
    let rs = string_of(rest, 0, rest.len());
    assert(rest@.subrange(0, rest.len() as int) =~= rest@);
    let ws = words_of(rest);
    let source = word_or_empty(&ws, 0);
    let target = word_or_empty(&ws, 1);
    if crate::text::blank(rs.as_str()) || source.as_str().is_empty() || target.as_str().is_empty() {
        ChatInput::Usage { topic: UsageTopic::Merge }
    } else if same_text(source.as_str(), target.as_str()) {
        ChatInput::MergeIntoItself
    } else {
        ChatInput::Merge { source, target }
    }
}

fn relate_input(rest: &Vec<char>) -> (r: ChatInput)
    ensures
        intent_of(r) == relate_intent(rest@),
{
    let rs = string_of(rest, 0, rest.len());
    assert(rest@.subrange(0, rest.len() as int) =~= rest@);
    let ws = words_of(rest);
    let from = word_or_empty(&ws, 0);
    let to = word_or_empty(&ws, 1);
    let rel_type = word_or_empty(&ws, 2);
    let mut tail: Vec<String> = Vec::new();
    if ws.len() > 3 {
        let mut i: usize = 3;
        while i < ws.len()
            invariant
                3 <= i <= ws.len(),
                views(tail@) == views(ws@).subrange(3, i as int),
            decreases ws.len() - i,
        {
            let w = ws[i].clone();
            assert(w@ == ws@[i as int]@);
            let ghost before = tail@;
            tail.push(w);
            assert(views(tail@) =~= views(before).push(w@));
            assert(views(ws@).subrange(3, i + 1) =~= views(ws@).subrange(3, i as int).push(
                views(ws@)[i as int],
            ));
            i += 1;
        }
        assert(views(ws@).subrange(3, ws.len() as int) =~= views(ws@).skip(3));
    } else {
        assert(views(tail@) =~= Seq::<Seq<char>>::empty());
    }
    let joined = join_strings(&tail, " ");
    let detail = trimmed(joined.as_str());
    if crate::text::blank(rs.as_str()) || from.as_str().is_empty() || to.as_str().is_empty()
        || rel_type.as_str().is_empty() {
        ChatInput::Usage { topic: UsageTopic::Relate }
    } else if same_text(from.as_str(), to.as_str()) {
        ChatInput::RelateToItself
    } else {
        ChatInput::Relate {
            from,
            to,
            rel_type,
            detail: if detail.as_str().is_empty() {
                None
            } else {
                Some(detail)
            },
        }
    }
}

/// The name and the arguments of the `/` command in the trimmed text `tv`.
fn command_parts(tv: &Vec<char>) -> (r: (String, String))
    requires
        tv.len() > 0,
    ensures
        r.0@ == command_word(slash_body(tv@)),
        r.1@ == command_rest(slash_body(tv@)),
{
    let body_raw = string_of(tv, 1, tv.len());
    assert(tv@.subrange(1, tv.len() as int) =~= tv@.skip(1));
    let body_s = trimmed(body_raw.as_str());
    let body = chars_of(body_s.as_str());
    let k = word_end(&body, 0);
    assert(body@.skip(0) =~= body@);
    let name_raw = string_of(&body, 0, k);
    assert(body@.subrange(0, k as int) =~= body@.take(k as int));
    let name_chars = lower_ascii_chars(&chars_of(trimmed(name_raw.as_str()).as_str()));
    let cmd_s = string_of(&name_chars, 0, name_chars.len());
    assert(name_chars@.subrange(0, name_chars.len() as int) =~= name_chars@);
    let rest_raw = if k < body.len() {
        assert(body@.subrange(k + 1, body.len() as int) =~= body@.skip(k + 1));
        string_of(&body, k + 1, body.len())
    } else {
        String::new()
    };
    (cmd_s, trimmed(rest_raw.as_str()))
}

/// What a `/` command in the trimmed text `tv` asks for.
fn slash_input(tv: &Vec<char>) -> (r: ChatInput)
    requires
        tv.len() > 0,
    ensures
        intent_of(r) == slash_intent(tv@),
{
    let (cmd_s, rest_s) = command_parts(tv);
    let rest = chars_of(rest_s.as_str());
    let cmd = cmd_s.as_str();
    if same_text(cmd, "help") || same_text(cmd, "h") {
        ChatInput::Help
    } else if same_text(cmd, "case") {
        if crate::text::blank(rest_s.as_str()) {
            ChatInput::Usage { topic: UsageTopic::Case }
        } else {
            ChatInput::SwitchCase { case_id: rest_s }
        }
    } else if same_text(cmd, "search") {
        ChatInput::Search { query: rest_s }
    } else if same_text(cmd, "tags") {
        ChatInput::FilterTags { tags: rest_s }
    } else if same_text(cmd, "jump") {
        if crate::text::blank(rest_s.as_str()) {
            ChatInput::Usage { topic: UsageTopic::Jump }
        } else {
            ChatInput::Jump { date: rest_s }
        }
    } else if same_text(cmd, "create") || same_text(cmd, "c") {
        ChatInput::CreateNode { args: rest_s }
    } else if same_text(cmd, "open") {
        open_input(&rest)
    } else if same_text(cmd, "history") {
        history_input(&rest)
    } else if same_text(cmd, "dedupe") {
        ChatInput::Dedupe
    } else if same_text(cmd, "rels") || same_text(cmd, "relationships") {
        ChatInput::Relationships
    } else if same_text(cmd, "graph") {
        ChatInput::Graph
    } else if same_text(cmd, "merge") {
        merge_input(&rest)
    } else if same_text(cmd, "rel") {
        relate_input(&rest)
    } else {
        ChatInput::UnknownCommand
    }
}

// ---------------------------------------------------------------------------
// Free text
// ---------------------------------------------------------------------------

/// The tool panel that free text talks about, by keywords of the lower-cased
/// text, tried in this order: creating; editing, moving or linking a node;
/// exports; files; search; persons.
pub open spec fn tool_for(l: Seq<char>) -> Option<ChatTool> {
    if contains_seq(l, "创建"@) || starts_with(l, "/create"@) || contains_seq(l, "create"@) {
        Some(ChatTool::CreateNode)
    } else if contains_seq(l, "编辑"@) || contains_seq(l, "修改"@) || starts_with(l, "/edit"@) {
        Some(ChatTool::FocusNode)
    } else if contains_seq(l, "移动"@) || contains_seq(l, "move"@) || starts_with(l, "/move"@) {
        Some(ChatTool::FocusNode)
    } else if contains_seq(l, "证据"@) || contains_seq(l, "链接"@) || starts_with(l, "/link"@) {
        Some(ChatTool::FocusNode)
    } else if contains_seq(l, "导出"@) || starts_with(l, "/export"@) || contains_seq(l, "export"@) {
        Some(ChatTool::Exports)
    } else if contains_seq(l, "文件"@) || contains_seq(l, "上传"@) || contains_seq(l, "解析"@)
        || contains_seq(l, "file"@) || contains_seq(l, "upload"@) || contains_seq(l, "parse"@)
        || starts_with(l, "/files"@) || starts_with(l, "/file"@) {
        Some(ChatTool::Files)
    } else if contains_seq(l, "搜索"@) || contains_seq(l, "查找"@) || contains_seq(l, "search"@)
        || starts_with(l, "/search"@) {
        Some(ChatTool::Search)
    } else if contains_seq(l, "人物"@) || contains_seq(l, "人员"@) || contains_seq(l, "当事人"@)
        || contains_seq(l, "person"@) || starts_with(l, "/person"@) || starts_with(l, "/persons"@) {
        Some(ChatTool::Persons)
    } else {
        None
    }
}

/// The text after its first `n` bytes.
pub open spec fn byte_suffix(s: Seq<char>, n: int) -> Seq<char> {
    s.skip(chars_within(s, n) as int)
}

/// The keyword of a search request typed as free text: what follows `/search`
/// (the text after its first seven bytes), or what follows a leading `搜索`;
/// none when it is blank.
pub open spec fn search_shortcut(text: Seq<char>, lowered: Seq<char>) -> Option<Seq<char>> {
    let q = if starts_with(lowered, "/search "@) {
        Some(trim(byte_suffix(text, 7)))
    } else if starts_with(text, "搜索"@) {
        Some(trim(strip_repeated(text, "搜索"@)))
    } else {
        None
    };
    match q {
        Some(q) => if is_blank(q) {
            None
        } else {
            Some(q)
        },
        None => None,
    }
}

/// Whether the search keyword of free text is cut at a character boundary
/// (the seventh byte of the text, where the lower-cased text starts with
/// `/search `).
pub open spec fn search_cut_fits(text: Seq<char>, lowered: Seq<char>) -> bool {
    (tool_for(lowered) == Some(ChatTool::Search) && starts_with(lowered, "/search "@))
        ==> is_boundary(text, 7)
}

/// What free text asks for: the tool it names, with a search keyword for the
/// search tool.
pub open spec fn free_intent(text: Seq<char>, lowered: Seq<char>) -> ChatIntent {
    match tool_for(lowered) {
        None => ChatIntent::Chatter,
        Some(t) => ChatIntent::OpenTool {
            tool: t,
            query: if t == ChatTool::Search {
                search_shortcut(text, lowered)
            } else {
                None
            },
        },
    }
}

/// What a chat message asks for, given the lower-cased form of its trimmed
/// text (the free-text keywords are looked up there).
pub open spec fn chat_intent(raw: Seq<char>, lowered: Seq<char>) -> ChatIntent {
    let text = trim(raw);
    if text.len() == 0 {
        ChatIntent::Blank
    } else if text[0] == '/' {
        slash_intent(text)
    } else {
        free_intent(text, lowered)
    }
}

fn tool_of(l: &Vec<char>) -> (r: Option<ChatTool>)
    ensures
        r == tool_for(l@),
{
    if contains_text(l, "创建") || starts_with_chars(l, "/create") || contains_text(l, "create") {
        Some(ChatTool::CreateNode)
    } else if contains_text(l, "编辑") || contains_text(l, "修改") || starts_with_chars(l, "/edit") {
        Some(ChatTool::FocusNode)
    } else if contains_text(l, "移动") || contains_text(l, "move") || starts_with_chars(l, "/move") {
        Some(ChatTool::FocusNode)
    } else if contains_text(l, "证据") || contains_text(l, "链接") || starts_with_chars(l, "/link") {
        Some(ChatTool::FocusNode)
    } else if contains_text(l, "导出") || starts_with_chars(l, "/export") || contains_text(l, "export") {
        Some(ChatTool::Exports)
    } else if contains_text(l, "文件") || contains_text(l, "上传") || contains_text(l, "解析")
        || contains_text(l, "file") || contains_text(l, "upload") || contains_text(l, "parse")
        || starts_with_chars(l, "/files") || starts_with_chars(l, "/file") {
        Some(ChatTool::Files)
    } else if contains_text(l, "搜索") || contains_text(l, "查找") || contains_text(l, "search")
        || starts_with_chars(l, "/search") {
        Some(ChatTool::Search)
    } else if contains_text(l, "人物") || contains_text(l, "人员") || contains_text(l, "当事人")
        || contains_text(l, "person") || starts_with_chars(l, "/person") || starts_with_chars(
        l,
        "/persons",
    ) {
        Some(ChatTool::Persons)
    } else {
        None
    }
}

/// The index after the leading copies of `p` in `v` (`trim_start_matches`).
fn strip_leading(v: &Vec<char>, p: &str) -> (r: usize)
    requires
        p@.len() > 0,
    ensures
        r <= v.len(),
        v@.skip(r as int) == strip_repeated(v@, p@),
{
    let pv = chars_of(p);
    let mut i: usize = 0;
    assert(v@.skip(0) =~= v@);
    while pv.len() <= v.len() - i && crate::text::seq_equal(v, i, i + pv.len(), &pv)
        invariant
            i <= v.len(),
            pv@ == p@,
            pv.len() > 0,
            strip_repeated(v@, p@) == strip_repeated(v@.skip(i as int), p@),
        decreases v.len() - i,
    {
        proof {
            let s = v@.skip(i as int);
            assert(s.take(pv.len() as int) =~= v@.subrange(i as int, i + pv.len()));
            assert(s.skip(pv.len() as int) =~= v@.skip(i + pv.len()));
        }
        i = i + pv.len();
    }
    proof {
        let s = v@.skip(i as int);
        if pv.len() <= v.len() - i {
            assert(s.take(pv.len() as int) =~= v@.subrange(i as int, i + pv.len()));
        }
    }
    i
}

fn free_input(tv: &Vec<char>, lowered: &str) -> (r: ChatInput)
    requires
        search_cut_fits(tv@, lowered@),
    ensures
        intent_of(r) == free_intent(tv@, lowered@),
{
    let lv = chars_of(lowered);
    let tool = match tool_of(&lv) {
        None => return ChatInput::Chatter,
        Some(t) => t,
    };
    match tool {
        ChatTool::Search => {},
        _ => return ChatInput::OpenTool { tool, query: None },
    }
    let q = if starts_with_chars(&lv, "/search ") {
        let (_, k) = measure_bytes(tv, 7);
        assert(tv@.subrange(k as int, tv.len() as int) =~= tv@.skip(k as int));
        Some(trimmed(string_of(tv, k, tv.len()).as_str()))
    } else if starts_with_chars(tv, "搜索") {
        proof {
            reveal_strlit("搜索");
        }
        let i = strip_leading(tv, "搜索");
        assert(tv@.subrange(i as int, tv.len() as int) =~= tv@.skip(i as int));
        Some(trimmed(string_of(tv, i, tv.len()).as_str()))
    } else {
        None
    };
    let query = match q {
        Some(q) => if crate::text::blank(q.as_str()) {
            None
        } else {
            Some(q)
        },
        None => None,
    };
    ChatInput::OpenTool { tool, query }
}

// ---------------------------------------------------------------------------
// Reading a message
// ---------------------------------------------------------------------------

/// What a chat message asks for (`chat_intent`), given the lower-cased form of
/// its trimmed text.
pub fn classify_chat_message(raw: &str, lowered: &str) -> (r: ChatInput)
    requires
        search_cut_fits(trim(raw@), lowered@),
    ensures
        intent_of(r) == chat_intent(raw@, lowered@),
{
    let t = trimmed(raw);
    let tv = chars_of(t.as_str());
    if tv.len() == 0 {
        return ChatInput::Blank;
    }
    if tv[0] == '/' {
        return slash_input(&tv);
    }
    free_input(&tv, lowered)
}

/// The lower-case form of `s` that `str::to_lowercase` gives (Unicode
/// lower-case mapping).
pub uninterp spec fn unicode_lowercase(s: Seq<char>) -> Seq<char>;

/// Calls `str::to_lowercase`.
#[verifier::external_body]
fn to_lowercase(s: &str) -> (r: String)
    ensures
        r@ == unicode_lowercase(s@),
{
    s.to_lowercase()
}

/// What a chat message asks for, its keywords looked up in the lower-cased
/// text; `None` exactly when a `/search` keyword typed as free text would be
/// cut inside a character.
pub fn read_chat_message(raw: &str) -> (r: Option<ChatInput>)
    ensures
        r is Some <==> search_cut_fits(trim(raw@), unicode_lowercase(trim(raw@))),
        r matches Some(c) ==> intent_of(c) == chat_intent(raw@, unicode_lowercase(trim(raw@))),
{
    let t = trimmed(raw);
    let lowered = to_lowercase(t.as_str());
    let lv = chars_of(lowered.as_str());
    let searching = match tool_of(&lv) {
        Some(ChatTool::Search) => true,
        _ => false,
    };
    if searching && starts_with_chars(&lv, "/search ") {
        let tv = chars_of(t.as_str());
        if !is_boundary_at(&tv, 7) {
            return None;
        }
    }
    Some(classify_chat_message(raw, lowered.as_str()))
}


/// Whether free text names a tool that is looked for before persons: creating,
/// editing, moving or linking a node, exports, files or search.
pub open spec fn names_an_earlier_tool(l: Seq<char>) -> bool {
    contains_seq(l, "创建"@) || starts_with(l, "/create"@) || contains_seq(l, "create"@)
        || contains_seq(l, "编辑"@) || contains_seq(l, "修改"@) || starts_with(l, "/edit"@)
        || contains_seq(l, "移动"@) || contains_seq(l, "move"@) || starts_with(l, "/move"@)
        || contains_seq(l, "证据"@) || contains_seq(l, "链接"@) || starts_with(l, "/link"@)
        || contains_seq(l, "导出"@) || starts_with(l, "/export"@) || contains_seq(l, "export"@)
        || contains_seq(l, "文件"@) || contains_seq(l, "上传"@) || contains_seq(l, "解析"@)
        || contains_seq(l, "file"@) || contains_seq(l, "upload"@) || contains_seq(l, "parse"@)
        || contains_seq(l, "搜索"@) || contains_seq(l, "查找"@) || contains_seq(l, "search"@)
}

/// Free text that talks of persons (人物, 人员, 当事人 or person) always opens a
/// tool, and it opens the persons tool, with no query, unless it also names a
/// tool that is looked for first.
pub proof fn law_person_words_open_persons(raw: Seq<char>, lowered: Seq<char>)
    requires
        trim(raw).len() > 0,
        trim(raw)[0] != '/',
        contains_seq(lowered, "人物"@) || contains_seq(lowered, "人员"@) || contains_seq(lowered, "当事人"@)
            || contains_seq(lowered, "person"@),
    ensures
        tool_for(lowered) is Some,
        !names_an_earlier_tool(lowered) ==> chat_intent(raw, lowered) == (ChatIntent::OpenTool {
            tool: ChatTool::Persons,
            query: None,
        }),
{
    if !names_an_earlier_tool(lowered) {
        reveal_strlit("/files");
        reveal_strlit("/file");
        reveal_strlit("/search");
        reveal_strlit("file");
        reveal_strlit("search");
        if starts_with(lowered, "/file"@) {
            let t = lowered.take(5);
            assert forall|i: int| 0 <= i < 4 implies #[trigger] lowered.subrange(1, 5)[i] == "file"@[i] by {
                assert(lowered[1 + i] == t[1 + i]);
            }
            assert(lowered.subrange(1, 5) =~= "file"@);
            assert(occurs_at(lowered, "file"@, 1));
        }
        if starts_with(lowered, "/files"@) {
            let t = lowered.take(6);
            assert forall|i: int| 0 <= i < 4 implies #[trigger] lowered.subrange(1, 5)[i] == "file"@[i] by {
                assert(lowered[1 + i] == t[1 + i]);
            }
            assert(lowered.subrange(1, 5) =~= "file"@);
            assert(occurs_at(lowered, "file"@, 1));
        }
        if starts_with(lowered, "/search"@) {
            let t = lowered.take(7);
            assert forall|i: int| 0 <= i < 6 implies #[trigger] lowered.subrange(1, 7)[i] == "search"@[i] by {
                assert(lowered[1 + i] == t[1 + i]);
            }
            assert(lowered.subrange(1, 7) =~= "search"@);
            assert(occurs_at(lowered, "search"@, 1));
        }
    }
}

} // verus!
