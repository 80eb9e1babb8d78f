//! The timeline workspace: dates, the node-creation command, tags, text
//! shortening for the canvas, drag-and-drop ordering and person-graph edges.
use crate::models::{GraphEdgeFields, TimelineEvidenceLink, TimelineNode, TimelineNodeListData};
use crate::text::{
    blank, chars_of, copy_strings, find_char, is_blank, is_ws, is_ws_char, lemma_find_from,
    lemma_trim_shape, lemma_word_len, lower_ascii, lower_ascii_chars, occurs_at, owned, push_str,
    same_text, string_of, trim, trim_bounds, trim_start, trimmed, word_len,
};
use vstd::prelude::*;

verus! {

// ---------------------------------------------------------------------------
// Dates
// ---------------------------------------------------------------------------

/// The day number (days from the start of the common era, the first of January
/// of year 1 being day 1) of the date that `chrono::NaiveDate::parse_from_str`
/// reads from `s` with the format `%Y-%m-%d`, or `None` where it reads none.
pub uninterp spec fn ymd_day_number(s: Seq<char>) -> Option<i32>;

/// Calls `chrono::NaiveDate::parse_from_str(s, "%Y-%m-%d")` and gives the date as
/// its day number (`Datelike::num_days_from_ce`).
#[verifier::external_body]
fn chrono_parse_ymd(s: &str) -> (r: Option<i32>)
    ensures
        r == ymd_day_number(s@),
{
    match chrono::NaiveDate::parse_from_str(s, "%Y-%m-%d") {
        Ok(d) => Some(chrono::Datelike::num_days_from_ce(&d)),
        Err(_) => None,
    }
}

/// The day number of the `YYYY-MM-DD` date in the trimmed `raw`, if it is one.
pub fn parse_date(raw: &str) -> (r: Option<i32>)
    ensures
        r == ymd_day_number(trim(raw@)),
{
    let t = trimmed(raw);
    chrono_parse_ymd(t.as_str())
}

/// The day number of `chrono::NaiveDate::MIN` (the first of January of year
/// -262143).
pub const FIRST_DATE_DAY: i32 = -95746129;

/// The day number of `chrono::NaiveDate::MAX` (the last of December of year
/// 262142).
pub const LAST_DATE_DAY: i32 = 95745399;

/// Whether `day` is the day number of a date chrono represents.
pub open spec fn is_date_day(day: int) -> bool {
    FIRST_DATE_DAY <= day <= LAST_DATE_DAY
}

/// The text that chrono writes for the date numbered `day` (as
/// `NaiveDate::from_num_days_from_ce_opt` reads it) with the format `pattern`,
/// or `None` where no date has that number.
pub uninterp spec fn day_text(day: i32, pattern: Seq<char>) -> Option<Seq<char>>;

/// Calls `chrono::NaiveDate::from_num_days_from_ce_opt(day)` and writes the date
/// with `format(pattern)`. Chrono gives a date for every day number from that of
/// `NaiveDate::MIN` to that of `NaiveDate::MAX`; the two patterns allowed here
/// always format.
#[verifier::external_body]
fn chrono_format_day(day: i32, pattern: &str) -> (r: Option<String>)
    requires
        pattern@ == "%Y-%m-%d"@ || pattern@ == "%m-%d"@,
    ensures
        crate::shell::opt_view(r) == day_text(day, pattern@),
        is_date_day(day as int) ==> r is Some,
{
    match chrono::NaiveDate::from_num_days_from_ce_opt(day) {
        Some(d) => Some(d.format(pattern).to_string()),
        None => None,
    }
}

/// The date numbered `day` as `YYYY-MM-DD`.
pub fn date_text(day: i32) -> (r: String)
    requires
        is_date_day(day as int),
    ensures
        day_text(day, "%Y-%m-%d"@) == Some(r@),
{
    match chrono_format_day(day, "%Y-%m-%d") {
        Some(t) => t,
        None => String::new(),
    }
}

/// The date numbered `day` as `MM-DD`, as the canvas ticks name it.
pub fn month_day_text(day: i32) -> (r: String)
    requires
        is_date_day(day as int),
    ensures
        day_text(day, "%m-%d"@) == Some(r@),
{
    match chrono_format_day(day, "%m-%d") {
        Some(t) => t,
        None => String::new(),
    }
}

/// The dates a node opens the timeline on: a week before its date to a week
/// after, as `YYYY-MM-DD`.
pub fn open_window(day: i32) -> (r: (String, String))
    requires
        is_date_day(day - 7),
        is_date_day(day + 7),
    ensures
        day_text((day - 7) as i32, "%Y-%m-%d"@) == Some(r.0@),
        day_text((day + 7) as i32, "%Y-%m-%d"@) == Some(r.1@),
{
    (date_text(day - 7), date_text(day + 7))
}

// ---------------------------------------------------------------------------
// Splitting
// ---------------------------------------------------------------------------

/// `s.split(c)`: the pieces between the occurrences of `c`, empty ones included.
pub open spec fn split_on(s: Seq<char>, c: char) -> Seq<Seq<char>>
    decreases s.len(),
{
    match find_char(s, c) {
        None => seq![s],
        Some(i) => if 0 <= i < s.len() {
            seq![s.take(i)] + split_on(s.skip(i + 1), c)
        } else {
            seq![s]
        },
    }
}

/// The pieces, trimmed, without the empty ones.
pub open spec fn nonblank_pieces(pieces: Seq<Seq<char>>) -> Seq<Seq<char>>
    decreases pieces.len(),
{
    if pieces.len() == 0 {
        Seq::empty()
    } else {
        (if trim(pieces[0]).len() > 0 {
            seq![trim(pieces[0])]
        } else {
            Seq::empty()
        }) + nonblank_pieces(pieces.drop_first())
    }
}

/// `s.split(c).map(str::trim).filter(|p| !p.is_empty())`.
pub open spec fn split_trimmed(s: Seq<char>, c: char) -> Seq<Seq<char>> {
    nonblank_pieces(split_on(s, c))
}

proof fn lemma_nonblank_append(a: Seq<Seq<char>>, x: Seq<char>)
    ensures
        nonblank_pieces(a.push(x)) == nonblank_pieces(a) + (if trim(x).len() > 0 {
            seq![trim(x)]
        } else {
            Seq::<Seq<char>>::empty()
        }),
    decreases a.len(),
{
    if a.len() == 0 {
        assert(a.push(x).drop_first() =~= Seq::<Seq<char>>::empty());
        assert(nonblank_pieces(Seq::<Seq<char>>::empty()) =~= Seq::<Seq<char>>::empty());
        assert(nonblank_pieces(a.push(x)) =~= nonblank_pieces(a) + (if trim(x).len() > 0 {
            seq![trim(x)]
        } else {
            Seq::<Seq<char>>::empty()
        }));
    } else {
        lemma_nonblank_append(a.drop_first(), x);
        assert(a.push(x).drop_first() =~= a.drop_first().push(x));
        assert(nonblank_pieces(a.push(x)) =~= nonblank_pieces(a) + (if trim(x).len() > 0 {
            seq![trim(x)]
        } else {
            Seq::<Seq<char>>::empty()
        }));
    }
}

proof fn lemma_nonblank_concat(a: Seq<Seq<char>>, b: Seq<Seq<char>>)
    ensures
        nonblank_pieces(a + b) == nonblank_pieces(a) + nonblank_pieces(b),
    decreases a.len(),
{
    if a.len() == 0 {
        assert(a + b =~= b);
        assert(nonblank_pieces(a) =~= Seq::<Seq<char>>::empty());
        assert(nonblank_pieces(a) + nonblank_pieces(b) =~= nonblank_pieces(b));
    } else {
        lemma_nonblank_concat(a.drop_first(), b);
        assert((a + b).drop_first() =~= a.drop_first() + b);
        assert((a + b)[0] == a[0]);
        let h = if trim(a[0]).len() > 0 {
            seq![trim(a[0])]
        } else {
            Seq::<Seq<char>>::empty()
        };
        assert(nonblank_pieces(a + b) == h + nonblank_pieces(a.drop_first() + b));
        assert(h + (nonblank_pieces(a.drop_first()) + nonblank_pieces(b)) =~= (h + nonblank_pieces(
            a.drop_first(),
        )) + nonblank_pieces(b));
    }
}

proof fn lemma_occurs_single(s: Seq<char>, c: char, k: int)
    ensures
        occurs_at(s, seq![c], k) <==> (0 <= k < s.len() && s[k] == c),
{
    if 0 <= k < s.len() {
        if s[k] == c {
            assert(s.subrange(k, k + 1) =~= seq![c]);
        } else {
            assert(s.subrange(k, k + 1)[0] == s[k]);
        }
    }
}

/// The split of a sequence whose first `c` is at `i`.
proof fn lemma_split_at(s: Seq<char>, c: char, i: int)
    requires
        0 <= i < s.len(),
        s[i] == c,
        forall|k: int| 0 <= k < i ==> s[k] != c,
    ensures
        split_on(s, c) == seq![s.take(i)] + split_on(s.skip(i + 1), c),
{
    assert forall|k: int| 0 <= k < i implies !occurs_at(s, seq![c], k) by {
        lemma_occurs_single(s, c, k);
    }
    lemma_occurs_single(s, c, i);
    lemma_find_from(s, seq![c], 0, Some(i));
}

/// The split of a sequence without `c`.
proof fn lemma_split_none(s: Seq<char>, c: char)
    requires
        forall|k: int| 0 <= k < s.len() ==> s[k] != c,
    ensures
        split_on(s, c) == seq![s],
{
    assert forall|k: int| 0 <= k implies !occurs_at(s, seq![c], k) by {
        lemma_occurs_single(s, c, k);
    }
    lemma_find_from(s, seq![c], 0, None);
}

/// The trimmed, non-empty pieces of `v` between occurrences of `c`.
pub fn split_trimmed_nonblank(v: &Vec<char>, c: char) -> (r: Vec<String>)
    ensures
        crate::text::views(r@) == split_trimmed(v@, c),
{
    let mut r: Vec<String> = Vec::new();
    let mut start: usize = 0;
    let mut i: usize = 0;
    let ghost mut done: Seq<Seq<char>> = Seq::empty();
    assert(v@.skip(0) =~= v@);
    assert(done + split_on(v@, c) =~= split_on(v@, c));
    assert(nonblank_pieces(done) =~= Seq::<Seq<char>>::empty());
    assert(crate::text::views(r@) =~= Seq::<Seq<char>>::empty());
    while i < v.len()
        invariant
            start <= i <= v.len(),
            split_on(v@, c) == done + split_on(v@.skip(start as int), c),
            crate::text::views(r@) == nonblank_pieces(done),
            forall|k: int| start <= k < i ==> v@[k] != c,
        decreases v.len() - i,
    {
        if v[i] == c {
            let piece = string_of(v, start, i);
            let ghost rest = v@.skip(start as int);
            proof {
                assert forall|k: int| 0 <= k < i - start implies rest[k] != c by {
                    assert(rest[k] == v@[start + k]);
                }
                assert(rest[i - start] == v@[i as int]);
                lemma_split_at(rest, c, i - start);
                assert(rest.take(i - start) =~= v@.subrange(start as int, i as int));
                assert(rest.skip(i - start + 1) =~= v@.skip(i + 1));
                lemma_nonblank_append(done, piece@);
            }
            let t = trimmed(piece.as_str());
            if !t.as_str().is_empty() {
                r.push(t);
            }
            proof {
                assert(crate::text::views(r@) =~= nonblank_pieces(done.push(piece@)));
                assert(done + (seq![piece@] + split_on(v@.skip(i + 1), c)) =~= done.push(piece@)
                    + split_on(v@.skip(i + 1), c));
                done = done.push(piece@);
            }
            start = i + 1;
        }
        i += 1;
    }
    let last = string_of(v, start, v.len());
    proof {
        let rest = v@.skip(start as int);
        assert forall|k: int| 0 <= k < rest.len() implies rest[k] != c by {
            assert(rest[k] == v@[start + k]);
        }
        lemma_split_none(rest, c);
        assert(rest =~= last@);
        lemma_nonblank_append(done, last@);
    }
    let t = trimmed(last.as_str());
    if !t.as_str().is_empty() {
        r.push(t);
    }
    assert(crate::text::views(r@) =~= nonblank_pieces(done.push(last@)));
    assert(done + seq![last@] =~= done.push(last@));
    r
}

/// The tags in a comma-separated list, trimmed, without empty ones.
pub fn parse_tags(raw: &str) -> (r: Vec<String>)
    ensures
        crate::text::views(r@) == split_trimmed(raw@, ','),
{
    let v = chars_of(raw);
    split_trimmed_nonblank(&v, ',')
}

/// The trimmed text, or `None` when it is blank.
pub fn opt_str(raw: &str) -> (r: Option<&str>)
    ensures
        is_blank(raw@) ==> r is None,
        !is_blank(raw@) ==> r is Some && r->0@ == trim(raw@),
{
    let v = chars_of(raw);
    let (lo, hi) = trim_bounds(&v);
    if lo == hi {
        None
    } else {
        Some(raw.substring_char(lo, hi))
    }
}

// ---------------------------------------------------------------------------
// Shortening text
// ---------------------------------------------------------------------------

/// The trimmed text cut to `max_chars` characters with `...` appended when it is
/// longer.
pub open spec fn svg_text(raw: Seq<char>, max_chars: int) -> Seq<char> {
    let t = trim(raw);
    if t.len() <= max_chars {
        t
    } else {
        t.take(max_chars) + "..."@
    }
}

pub fn truncate_svg_text(raw: &str, max_chars: usize) -> (r: String)
    ensures
        r@ == svg_text(raw@, max_chars as int),
{
    let v = chars_of(raw);
    let (lo, hi) = trim_bounds(&v);
    if hi - lo <= max_chars {
        return string_of(&v, lo, hi);
    }
    let mut out = string_of(&v, lo, lo + max_chars);
    assert(v@.subrange(lo as int, hi as int).take(max_chars as int) =~= v@.subrange(
        lo as int,
        lo + max_chars,
    ));
    push_str(&mut out, "...");
    out
}

/// The text cut to `max_chars` characters with `...` appended when it is
/// longer; nothing at all when `max_chars` is zero.
pub open spec fn char_truncated(raw: Seq<char>, max_chars: int) -> Seq<char> {
    if max_chars == 0 {
        Seq::empty()
    } else if raw.len() <= max_chars {
        raw
    } else {
        raw.take(max_chars) + "..."@
    }
}

pub fn truncate(raw: &str, max_chars: usize) -> (r: String)
    ensures
        r@ == char_truncated(raw@, max_chars as int),
{
    if max_chars == 0 {
        return String::new();
    }
    let v = chars_of(raw);
    if v.len() <= max_chars {
        return owned(raw);
    }
    let mut out = string_of(&v, 0, max_chars);
    assert(v@.subrange(0, max_chars as int) =~= v@.take(max_chars as int));
    push_str(&mut out, "...");
    out
}

/// A file name for saving a download (the same rule as `api::sanitize_filename`).
pub fn sanitize_download_name(raw: &str) -> (r: String)
    ensures
        r@ == crate::api::sanitized_download_name(raw@),
{
    crate::api::sanitize_filename(raw)
}

// ---------------------------------------------------------------------------
// The node-creation command
// ---------------------------------------------------------------------------

/// A node to create, as typed in the chat: `<date> <title> | key=value | ...`.
#[derive(Clone, Debug, PartialEq)]
pub struct CreateNodeCommand {
    pub event_time: String,
    pub title: String,
    pub description: Option<String>,
    pub tags: Vec<String>,
}

/// The text of a node-creation command.
pub struct CommandText {
    pub event_time: Seq<char>,
    pub title: Seq<char>,
    pub description: Option<Seq<char>>,
    pub tags: Seq<Seq<char>>,
}

pub open spec fn command_text(c: CreateNodeCommand) -> CommandText {
    CommandText {
        event_time: c.event_time@,
        title: c.title@,
        description: match c.description {
            Some(d) => Some(d@),
            None => None,
        },
        tags: crate::text::views(c.tags@),
    }
}

/// The first whitespace-separated word of `s`.
pub open spec fn first_word(s: Seq<char>) -> Seq<char> {
    let t = trim_start(s);
    t.take(word_len(t) as int)
}

/// `s.trim_start_matches(p)`: `s` without any number of leading copies of `p`.
pub open spec fn strip_repeated(s: Seq<char>, p: Seq<char>) -> Seq<char>
    decreases s.len(),
{
    if p.len() > 0 && p.len() <= s.len() && s.take(p.len() as int) == p {
        strip_repeated(s.skip(p.len() as int), p)
    } else {
        s
    }
}

/// `seg.split_once('=')`.
pub open spec fn split_at_eq(seg: Seq<char>) -> Option<(Seq<char>, Seq<char>)> {
    match find_char(seg, '=') {
        Some(i) => Some((seg.take(i), seg.skip(i + 1))),
        None => None,
    }
}

/// What one `key=value` segment does to the command: `title` sets a title that
/// is still blank, `desc` or `description` sets the description, `tags` sets the
/// tags; other keys, segments without `=` and blank values change nothing.
pub open spec fn apply_option(cmd: CommandText, seg: Seq<char>) -> CommandText {
    match split_at_eq(seg) {
        None => cmd,
        Some((k, v)) => {
            let key = lower_ascii(trim(k));
            let value = trim(v);
            if value.len() == 0 {
                cmd
            } else if key == "title"@ {
                if is_blank(cmd.title) {
                    CommandText { title: value, ..cmd }
                } else {
                    cmd
                }
            } else if key == "desc"@ || key == "description"@ {
                CommandText { description: Some(value), ..cmd }
            } else if key == "tags"@ {
                CommandText { tags: split_trimmed(value, ','), ..cmd }
            } else {
                cmd
            }
        },
    }
}

/// The segments applied one after the other.
pub open spec fn apply_options(cmd: CommandText, segs: Seq<Seq<char>>) -> CommandText
    decreases segs.len(),
{
    if segs.len() == 0 {
        cmd
    } else {
        apply_option(apply_options(cmd, segs.drop_last()), segs.last())
    }
}

/// The trimmed, non-empty `|`-separated segments of a command.
pub open spec fn command_segments(raw: Seq<char>) -> Seq<Seq<char>> {
    split_trimmed(trim(raw), '|')
}

/// The date word of a command: the first word of its first segment.
pub open spec fn command_date(raw: Seq<char>) -> Seq<char> {
    first_word(command_segments(raw)[0])
}

/// Whether the date word of a command is a date that `parse_date` accepts.
pub open spec fn command_date_valid(raw: Seq<char>) -> bool {
    command_segments(raw).len() > 0 && ymd_day_number(trim(command_date(raw))) is Some
}

/// The command that `raw` describes, given whether its date word is a valid
/// date: the date, the rest of the first segment as title, then the options;
/// or the error message.
pub open spec fn node_command(raw: Seq<char>, date_valid: bool) -> Result<CommandText, Seq<char>> {
    let t = trim(raw);
    let segs = command_segments(raw);
    if t.len() == 0 || segs.len() == 0 {
        Err("missing args"@)
    } else if !date_valid {
        Err("invalid date (expected YYYY-MM-DD)"@)
    } else {
        let first = segs[0];
        let date = first_word(first);
        let init = CommandText {
            event_time: date,
            title: trim(strip_repeated(first, date)),
            description: None,
            tags: Seq::empty(),
        };
        let out = apply_options(init, segs.drop_first());
        if is_blank(out.title) {
            Err("missing title"@)
        } else {
            Ok(out)
        }
    }
}

pub open spec fn command_result_text(r: Result<CreateNodeCommand, String>) -> Result<CommandText, Seq<char>> {
    match r {
        Ok(c) => Ok(command_text(c)),
        Err(e) => Err(e@),
    }
}

proof fn lemma_nonblank_elements(pieces: Seq<Seq<char>>)
    ensures
        forall|i: int|
            0 <= i < nonblank_pieces(pieces).len() ==> #[trigger] nonblank_pieces(pieces)[i].len()
                > 0 && !is_ws(nonblank_pieces(pieces)[i][0]),
    decreases pieces.len(),
{
    if pieces.len() > 0 {
        lemma_nonblank_elements(pieces.drop_first());
        lemma_trim_shape(pieces[0]);
        let h = if trim(pieces[0]).len() > 0 {
            seq![trim(pieces[0])]
        } else {
            Seq::<Seq<char>>::empty()
        };
        let rest = nonblank_pieces(pieces.drop_first());
        assert forall|i: int|
            0 <= i < nonblank_pieces(pieces).len() implies #[trigger] nonblank_pieces(
            pieces,
        )[i].len() > 0 && !is_ws(nonblank_pieces(pieces)[i][0]) by {
            if i < h.len() {
                assert(nonblank_pieces(pieces)[i] == h[i]);
            } else {
                assert(nonblank_pieces(pieces)[i] == rest[i - h.len()]);
            }
        }
    }
}

/// The first word of a segment that starts with a non-whitespace character.
fn leading_word(v: &Vec<char>) -> (r: usize)
    requires
        v.len() > 0,
        !is_ws(v@[0]),
    ensures
        0 < r <= v.len(),
        first_word(v@) == v@.take(r as int),
        r == v.len() || is_ws(v@[r as int]),
{
    let mut k: usize = 0;
    while k < v.len() && !is_ws_char(v[k])
        invariant
            k <= v.len(),
            forall|j: int| 0 <= j < k ==> !is_ws(#[trigger] v@[j]),
        decreases v.len() - k,
    {
        k += 1;
    }
    proof {
        lemma_word_len(v@, k as int);
        assert(trim_start(v@) == v@);
    }
    k
}

/// Applies one `key=value` segment.
fn apply_segment(cmd: CreateNodeCommand, seg: &String) -> (r: CreateNodeCommand)
    ensures
        command_text(r) == apply_option(command_text(cmd), seg@),
{
    let sv = chars_of(seg.as_str());
    let i = match crate::text::find_char_in(&sv, '=') {
        Some(i) => i,
        None => return cmd,
    };
    proof {
        crate::text::lemma_find_bound(sv@, seq!['='], 0);
    }
    let k = string_of(&sv, 0, i);
    let v = string_of(&sv, i + 1, sv.len());
    assert(sv@.take(i as int) =~= k@);
    assert(sv@.skip(i + 1) =~= v@);
    let kt = trimmed(k.as_str());
    let kv = chars_of(kt.as_str());
    let key_chars = lower_ascii_chars(&kv);
    let key = string_of(&key_chars, 0, key_chars.len());
    assert(key_chars@.subrange(0, key_chars@.len() as int) =~= key_chars@);
    let value = trimmed(v.as_str());
    if value.as_str().is_empty() {
        return cmd;
    }
    let key = key.as_str();
    if same_text(key, "title") {
        if blank(cmd.title.as_str()) {
            CreateNodeCommand { title: value, ..cmd }
        } else {
            cmd
        }
    } else if same_text(key, "desc") || same_text(key, "description") {
        CreateNodeCommand { description: Some(value), ..cmd }
    } else if same_text(key, "tags") {
        CreateNodeCommand { tags: parse_tags(value.as_str()), ..cmd }
    } else {
        cmd
    }
}

/// The node-creation command in `raw`, given whether its date word is valid
/// (`command_date_valid`).
pub fn create_node_command_from(raw: &str, date_valid: bool) -> (r: Result<CreateNodeCommand, String>)
    ensures
        command_result_text(r) == node_command(raw@, date_valid),
{
    let t = trimmed(raw);
    if t.as_str().is_empty() {
        return Err(owned("missing args"));
    }
    let tv = chars_of(t.as_str());
    let segments = split_trimmed_nonblank(&tv, '|');
    if segments.len() == 0 {
        return Err(owned("missing args"));
    }
    if !date_valid {
        return Err(owned("invalid date (expected YYYY-MM-DD)"));
    }
    proof {
        lemma_nonblank_elements(split_on(tv@, '|'));
        assert(segments@[0]@ == command_segments(raw@)[0]);
    }
    let first = chars_of(segments[0].as_str());
    let n = leading_word(&first);
    let date = string_of(&first, 0, n);
    assert(first@.subrange(0, n as int) =~= first@.take(n as int));
    let rest = string_of(&first, n, first.len());
    proof {
        let f = first@;
        let d = f.take(n as int);
        assert(f.skip(n as int) =~= rest@);
        assert(f.take(d.len() as int) =~= d);
        let s1 = f.skip(d.len() as int);
        if d.len() <= s1.len() && s1.take(d.len() as int) == d {
            assert(s1[0] == d[0]);
        }
        assert(strip_repeated(f, d) == strip_repeated(s1, d));
        assert(strip_repeated(s1, d) == s1);
    }
    let title = trimmed(rest.as_str());
    let mut out = CreateNodeCommand { event_time: date, title, description: None, tags: Vec::new() };
    let ghost segs = crate::text::views(segments@);
    let ghost init = command_text(out);
    proof {
        let segs_spec = command_segments(raw@);
        assert(segs_spec == crate::text::views(segments@));
        assert(init.tags =~= Seq::<Seq<char>>::empty());
        assert(init.event_time == first_word(segs_spec[0]));
        assert(init == (CommandText {
            event_time: first_word(segs_spec[0]),
            title: trim(strip_repeated(segs_spec[0], first_word(segs_spec[0]))),
            description: None,
            tags: Seq::empty(),
        }));
    }
    assert(segs.drop_first().take(0) =~= Seq::<Seq<char>>::empty());
    let mut i: usize = 1;
    while i < segments.len()
        invariant
            1 <= i <= segments.len(),
            segs == crate::text::views(segments@),
            command_text(out) == apply_options(init, segs.drop_first().take(i - 1)),
        decreases segments.len() - i,
    {
        assert(segs.drop_first().take(i as int).drop_last() =~= segs.drop_first().take(i - 1));
        assert(segs.drop_first().take(i as int).last() == segments@[i as int]@);
        out = apply_segment(out, &segments[i]);
        i += 1;
    }
    assert(segs.drop_first().take(segments.len() - 1) =~= segs.drop_first());
    if blank(out.title.as_str()) {
        return Err(owned("missing title"));
    }
    Ok(out)
}

/// Parses `/create`'s arguments: `<YYYY-MM-DD> <title> | tags=a,b | desc=...`.
pub fn parse_create_node_command(raw: &str) -> (r: Result<CreateNodeCommand, String>)
    ensures
        command_result_text(r) == node_command(raw@, command_date_valid(raw@)),
{
    let t = trimmed(raw);
    let tv = chars_of(t.as_str());
    let segments = split_trimmed_nonblank(&tv, '|');
    let date_valid = if segments.len() == 0 {
        false
    } else {
        proof {
            lemma_nonblank_elements(split_on(tv@, '|'));
        }
        let first = chars_of(segments[0].as_str());
        let n = leading_word(&first);
        let date = string_of(&first, 0, n);
        assert(first@.subrange(0, n as int) =~= first@.take(n as int));
        parse_date(date.as_str()).is_some()
    };
    create_node_command_from(raw, date_valid)
}

// ---------------------------------------------------------------------------
// Drag-and-drop ordering on the canvas
// ---------------------------------------------------------------------------

/// What the drag-and-drop ordering reads of a node on the canvas: its id, its
/// date (as a day number) and its sort order.
#[derive(Clone, Debug, PartialEq)]
pub struct CanvasNodeSlot {
    pub id: String,
    pub date: i32,
    pub sort_order: i64,
}

/// The sort orders of the nodes other than `node_id` that stand on `date`, in
/// the order of the nodes.
pub open spec fn same_day_orders(nodes: Seq<CanvasNodeSlot>, node_id: Seq<char>, date: i32) -> Seq<i64>
    decreases nodes.len(),
{
    if nodes.len() == 0 {
        Seq::empty()
    } else {
        let rest = same_day_orders(nodes.drop_last(), node_id, date);
        let n = nodes.last();
        if n.id@ != node_id && n.date == date {
            rest.push(n.sort_order)
        } else {
            rest
        }
    }
}

/// The order of integers.
pub open spec fn order_leq() -> spec_fn(i64, i64) -> bool {
    |a: i64, b: i64| a <= b
}

/// Those sort orders, ascending.
pub open spec fn sorted_same_day(nodes: Seq<CanvasNodeSlot>, node_id: Seq<char>, date: i32) -> Seq<i64> {
    same_day_orders(nodes, node_id, date).sort_by(order_leq())
}

/// The place `target_slot` among the ascending orders `sorted`, at most their
/// number.
pub open spec fn drag_slot(sorted: Seq<i64>, target_slot: int) -> int {
    if target_slot < sorted.len() {
        target_slot
    } else {
        sorted.len() as int
    }
}

/// The sort order that puts a dropped node at `target_slot` among the ascending
/// orders `sorted` of the other nodes of that day: one below the first, one
/// above the last, or between its two neighbours (their midpoint when they are
/// more than one apart, else one above the lower); `None` on an empty day.
pub open spec fn drag_sort_order(sorted: Seq<i64>, target_slot: int) -> Option<int> {
    let slot = drag_slot(sorted, target_slot);
    if sorted.len() == 0 {
        None
    } else if slot == 0 {
        Some(sorted[0] - 1)
    } else if slot >= sorted.len() {
        Some(sorted.last() + 1)
    } else {
        let prev = sorted[slot - 1];
        let next = sorted[slot];
        if next - prev > 1 {
            Some(prev + (next - prev) / 2)
        } else {
            Some(prev + 1)
        }
    }
}

/// Whether the arithmetic of `drag_sort_order` stays within `i64`.
pub open spec fn drag_sort_order_fits(sorted: Seq<i64>, target_slot: int) -> bool {
    let slot = drag_slot(sorted, target_slot);
    sorted.len() > 0 ==> if slot == 0 {
        sorted[0] > i64::MIN
    } else if slot >= sorted.len() {
        sorted.last() < i64::MAX
    } else {
        sorted[slot] - sorted[slot - 1] <= i64::MAX && sorted[slot - 1] < i64::MAX
    }
}

proof fn lemma_order_leq_total()
    ensures
        vstd::relations::total_ordering(order_leq()),
{
}

/// Sorts nothing away: the ascending orders that `insert` keeps.
fn insert_ascending(v: &mut Vec<i64>, x: i64)
    requires
        vstd::relations::sorted_by(old(v)@, order_leq()),
    ensures
        vstd::relations::sorted_by(final(v)@, order_leq()),
        final(v)@.to_multiset() == old(v)@.to_multiset().insert(x),
{
    let mut j: usize = 0;
    while j < v.len() && v[j] <= x
        invariant
            j <= v.len(),
            forall|k: int| 0 <= k < j ==> v@[k] <= x,
        decreases v.len() - j,
    {
        j += 1;
    }
    let ghost before = v@;
    v.insert(j, x);
    proof {
        broadcast use vstd::seq_lib::group_to_multiset_ensures;
        let after = v@;
        assert(after =~= before.insert(j as int, x));
        assert forall|a: int, b: int| 0 <= a < b < after.len() implies #[trigger] (order_leq())(
            after[a],
            after[b],
        ) by {
            let ga = if a < j { a } else if a == j { -1 } else { a - 1 };
            let gb = if b < j { b } else if b == j { -1 } else { b - 1 };
            if a < j && b < j {
                assert((order_leq())(before[ga], before[gb]));
            } else if a < j && b == j {
            } else if a < j {
                assert((order_leq())(before[ga], before[gb]));
            } else if a == j {
                assert(j < before.len());
                assert(!(before[j as int] <= x));
                if gb > j {
                    assert((order_leq())(before[j as int], before[gb]));
                }
            } else {
                assert((order_leq())(before[ga], before[gb]));
            }
        }
    }
}

/// The sort order that a node dropped on `target_date` at `target_slot` takes
/// among the other nodes of that day (`drag_sort_order` of their ascending
/// orders), or `None` when no other node stands on that day.
pub fn resolve_drag_sort_order(
    nodes: &Vec<CanvasNodeSlot>,
    node_id: &str,
    target_date: i32,
    target_slot: usize,
) -> (r: Option<i64>)
    requires
        drag_sort_order_fits(sorted_same_day(nodes@, node_id@, target_date), target_slot as int),
    ensures
        r matches Some(v) ==> drag_sort_order(
            sorted_same_day(nodes@, node_id@, target_date),
            target_slot as int,
        ) == Some(v as int),
        r is None <==> drag_sort_order(sorted_same_day(nodes@, node_id@, target_date), target_slot as int) is None,
{
    let mut same_day: Vec<i64> = Vec::new();
    let mut i: usize = 0;
    while i < nodes.len()
        invariant
            i <= nodes.len(),
            vstd::relations::sorted_by(same_day@, order_leq()),
            same_day@.to_multiset() == same_day_orders(nodes@.take(i as int), node_id@, target_date).to_multiset(),
        decreases nodes.len() - i,
    {
        let n = &nodes[i];
        proof {
            assert(nodes@.take(i + 1).drop_last() =~= nodes@.take(i as int));
            assert(nodes@.take(i + 1).last() == nodes@[i as int]);
        }
        if n.date == target_date && !same_text(n.id.as_str(), node_id) {
            insert_ascending(&mut same_day, n.sort_order);
            proof {
                broadcast use vstd::seq_lib::group_to_multiset_ensures;
            }
        }
        i += 1;
    }
    let ghost orders = same_day_orders(nodes@, node_id@, target_date);
    proof {
        assert(nodes@.take(nodes.len() as int) =~= nodes@);
        lemma_order_leq_total();
        orders.lemma_sort_by_ensures(order_leq());
        vstd::seq_lib::lemma_sorted_unique(same_day@, orders.sort_by(order_leq()), order_leq());
    }
    let len = same_day.len();
    if len == 0 {
        return None;
    }
    let slot = if target_slot < len { target_slot } else { len };
    if slot == 0 {
        return Some(same_day[0] - 1);
    }
    if slot >= len {
        return Some(same_day[len - 1] + 1);
    }
    let prev = same_day[slot - 1];
    let next = same_day[slot];
    proof {
        assert((order_leq())(same_day@[slot - 1], same_day@[slot as int]));
    }
    if next - prev > 1 {
        Some(prev + ((next - prev) / 2))
    } else {
        Some(prev + 1)
    }
}

/// A dropped node lands where it was dropped: below every other node of the
/// day at the first slot, above every other at the last, and otherwise above
/// its upper neighbour's predecessor and, where the two neighbours are more
/// than one apart, strictly below the next one.
pub proof fn law_drag_order_between(sorted: Seq<i64>, target_slot: int)
    requires
        vstd::relations::sorted_by(sorted, order_leq()),
        sorted.len() > 0,
        target_slot >= 0,
    ensures
        drag_sort_order(sorted, target_slot) is Some,
        ({
            let r = drag_sort_order(sorted, target_slot)->0;
            let slot = drag_slot(sorted, target_slot);
            &&& slot == 0 ==> forall|k: int| 0 <= k < sorted.len() ==> r < sorted[k]
            &&& slot == sorted.len() ==> forall|k: int| 0 <= k < sorted.len() ==> sorted[k] < r
            &&& 0 < slot < sorted.len() ==> forall|k: int| 0 <= k < slot ==> sorted[k] < r
            &&& 0 < slot < sorted.len() && sorted[slot] - sorted[slot - 1] > 1 ==> forall|k: int|
                slot <= k < sorted.len() ==> r < sorted[k]
        }),
{
    let slot = drag_slot(sorted, target_slot);
    assert forall|k: int| 0 <= k < sorted.len() implies sorted[0] <= #[trigger] sorted[k] by {
        if k > 0 {
            assert((order_leq())(sorted[0], sorted[k]));
        }
    }
    assert forall|k: int| 0 <= k < sorted.len() implies #[trigger] sorted[k] <= sorted.last() by {
        if k < sorted.len() - 1 {
            assert((order_leq())(sorted[k], sorted[sorted.len() - 1]));
        }
    }
    if 0 < slot < sorted.len() {
        assert forall|k: int| 0 <= k < slot implies #[trigger] sorted[k] <= sorted[slot - 1] by {
            if k < slot - 1 {
                assert((order_leq())(sorted[k], sorted[slot - 1]));
            }
        }
        assert forall|k: int| slot <= k < sorted.len() implies sorted[slot] <= #[trigger] sorted[k] by {
            if k > slot {
                assert((order_leq())(sorted[slot], sorted[k]));
            }
        }
    }
}

// ---------------------------------------------------------------------------
// Person-graph edges
// ---------------------------------------------------------------------------

/// An edge of the person graph as drawn: its key, its two ends, its relation
/// and the relation's detail.
#[derive(Clone, Debug, PartialEq)]
pub struct PersonGraphLayoutEdge {
    pub key: String,
    pub from_person_id: String,
    pub to_person_id: String,
    pub rel_type: String,
    pub rel_detail: Option<String>,
}

/// The text of a drawn edge.
pub struct EdgeText {
    pub key: Seq<char>,
    pub from_person_id: Seq<char>,
    pub to_person_id: Seq<char>,
    pub rel_type: Seq<char>,
    pub rel_detail: Option<Seq<char>>,
}

pub open spec fn edge_text(e: PersonGraphLayoutEdge) -> EdgeText {
    EdgeText {
        key: e.key@,
        from_person_id: e.from_person_id@,
        to_person_id: e.to_person_id@,
        rel_type: e.rel_type@,
        rel_detail: crate::shell::opt_view(e.rel_detail),
    }
}

/// The edge drawn for the fields of a raw edge: both ends present and non-blank
/// (trimmed), the relation trimmed and `related` where it is missing, a detail
/// only where it is non-blank (trimmed), and the key `edge:<id>` or, without an
/// id, `edge:<from>:<to>:<relation>`; no edge where an end or the relation is
/// missing or blank.
pub open spec fn graph_edge(f: GraphEdgeFields) -> Option<EdgeText> {
    match (f.from_person_id, f.to_person_id) {
        (Some(from_raw), Some(to_raw)) => {
            let from = trim(from_raw@);
            let to = trim(to_raw@);
            let rel = trim(
                match f.rel_type {
                    Some(r) => r@,
                    None => "related"@,
                },
            );
            if from.len() == 0 || to.len() == 0 || rel.len() == 0 {
                None
            } else {
                Some(
                    EdgeText {
                        key: match f.id {
                            Some(id) => "edge:"@ + id@,
                            None => "edge:"@ + from + ":"@ + to + ":"@ + rel,
                        },
                        from_person_id: from,
                        to_person_id: to,
                        rel_type: rel,
                        rel_detail: match f.rel_detail {
                            Some(d) => if trim(d@).len() > 0 {
                                Some(trim(d@))
                            } else {
                                None
                            },
                            None => None,
                        },
                    },
                )
            }
        },
        _ => None,
    }
}

pub open spec fn opt_edge_text(e: Option<PersonGraphLayoutEdge>) -> Option<EdgeText> {
    match e {
        Some(e) => Some(edge_text(e)),
        None => None,
    }
}

/// The edge to draw for the fields of a raw edge (`graph_edge`).
pub fn parse_person_graph_edge(raw: &GraphEdgeFields) -> (r: Option<PersonGraphLayoutEdge>)
    ensures
        opt_edge_text(r) == graph_edge(*raw),
{
    let from_person_id = match &raw.from_person_id {
        Some(v) => trimmed(v.as_str()),
        None => return None,
    };
    let to_person_id = match &raw.to_person_id {
        Some(v) => trimmed(v.as_str()),
        None => return None,
    };
    let rel_type = match &raw.rel_type {
        Some(v) => trimmed(v.as_str()),
        None => trimmed("related"),
    };
    if from_person_id.as_str().is_empty() || to_person_id.as_str().is_empty()
        || rel_type.as_str().is_empty() {
        return None;
    }
    let rel_detail = match &raw.rel_detail {
        Some(d) => {
            let t = trimmed(d.as_str());
            if t.as_str().is_empty() {
                None
            } else {
                Some(t)
            }
        },
        None => None,
    };
    let mut key = owned("edge:");
    match &raw.id {
        Some(id) => push_str(&mut key, id.as_str()),
        None => {
            push_str(&mut key, from_person_id.as_str());
            push_str(&mut key, ":");
            push_str(&mut key, to_person_id.as_str());
            push_str(&mut key, ":");
            push_str(&mut key, rel_type.as_str());
        },
    }
    Some(PersonGraphLayoutEdge { key, from_person_id, to_person_id, rel_type, rel_detail })
}

// ---------------------------------------------------------------------------
// The selected node
// ---------------------------------------------------------------------------

/// Two nodes with the same fields (their lists by their contents).
pub open spec fn same_node(a: TimelineNode, b: TimelineNode) -> bool {
    &&& a.id == b.id
    &&& a.case_id == b.case_id
    &&& a.title == b.title
    &&& a.description == b.description
    &&& a.event_time == b.event_time
    &&& a.sort_order == b.sort_order
    &&& a.tags@ == b.tags@
    &&& a.evidence_links@ == b.evidence_links@
    &&& a.created_at == b.created_at
    &&& a.updated_at == b.updated_at
}

/// The index of the first node with the id `id`.
pub open spec fn first_node_index(nodes: Seq<TimelineNode>, id: Seq<char>) -> Option<int>
    decreases nodes.len(),
{
    if nodes.len() == 0 {
        None
    } else if nodes[0].id@ == id {
        Some(0)
    } else {
        match first_node_index(nodes.drop_first(), id) {
            Some(k) => Some(k + 1),
            None => None,
        }
    }
}

/// The selected node: the first node with the selected id among the canvas
/// nodes, else among the table's nodes (`table` holds them only when the table
/// loaded successfully with data); none without a selection.
pub open spec fn selected_node(
    selected_id: Option<Seq<char>>,
    canvas: Option<Seq<TimelineNode>>,
    table: Option<Seq<TimelineNode>>,
) -> Option<TimelineNode> {
    match selected_id {
        None => None,
        Some(id) => {
            let from_canvas = match canvas {
                Some(ns) => match first_node_index(ns, id) {
                    Some(k) => Some(ns[k]),
                    None => None,
                },
                None => None,
            };
            if from_canvas is Some {
                from_canvas
            } else {
                match table {
                    Some(ns) => match first_node_index(ns, id) {
                        Some(k) => Some(ns[k]),
                        None => None,
                    },
                    None => None,
                }
            }
        },
    }
}

pub open spec fn table_nodes(t: Option<&Result<Option<TimelineNodeListData>, String>>) -> Option<
    Seq<TimelineNode>,
> {
    match t {
        Some(Ok(Some(data))) => Some(data.nodes@),
        _ => None,
    }
}

proof fn lemma_first_node_index(nodes: Seq<TimelineNode>, id: Seq<char>, i: int)
    requires
        0 <= i <= nodes.len(),
        forall|j: int| 0 <= j < i ==> nodes[j].id@ != id,
    ensures
        i < nodes.len() && nodes[i].id@ == id ==> first_node_index(nodes, id) == Some(i),
        i == nodes.len() ==> first_node_index(nodes, id) is None,
    decreases i,
{
    if i > 0 {
        let t = nodes.drop_first();
        assert forall|j: int| 0 <= j < i - 1 implies t[j].id@ != id by {
            assert(t[j] == nodes[j + 1]);
        }
        lemma_first_node_index(t, id, i - 1);
        if i < nodes.len() {
            assert(t[i - 1] == nodes[i]);
        }
    }
}

fn copy_link(l: &TimelineEvidenceLink) -> (r: TimelineEvidenceLink)
    ensures
        r == *l,
{
    TimelineEvidenceLink {
        id: l.id.clone(),
        evidence_id: l.evidence_id.clone(),
        evidence_name: l.evidence_name.clone(),
        anchor_type: l.anchor_type.clone(),
        anchor_data: match &l.anchor_data {
            Some(d) => Some(d.clone()),
            None => None,
        },
    }
}

fn copy_node(n: &TimelineNode) -> (r: TimelineNode)
    ensures
        same_node(r, *n),
{
    let mut links: Vec<TimelineEvidenceLink> = Vec::new();
    let mut i: usize = 0;
    while i < n.evidence_links.len()
        invariant
            i <= n.evidence_links.len(),
            links@ == n.evidence_links@.take(i as int),
        decreases n.evidence_links.len() - i,
    {
        links.push(copy_link(&n.evidence_links[i]));
        assert(n.evidence_links@.take(i + 1) =~= n.evidence_links@.take(i as int).push(
            n.evidence_links@[i as int],
        ));
        i += 1;
    }
    assert(n.evidence_links@.take(n.evidence_links.len() as int) =~= n.evidence_links@);
    TimelineNode {
        id: n.id.clone(),
        case_id: n.case_id.clone(),
        title: n.title.clone(),
        description: match &n.description {
            Some(d) => Some(d.clone()),
            None => None,
        },
        event_time: n.event_time.clone(),
        sort_order: n.sort_order,
        tags: copy_strings(&n.tags),
        evidence_links: links,
        created_at: n.created_at.clone(),
        updated_at: n.updated_at.clone(),
    }
}

/// A copy of the first node with the id `id`, if any.
fn find_node(nodes: &Vec<TimelineNode>, id: &str) -> (r: Option<TimelineNode>)
    ensures
        match (r, first_node_index(nodes@, id@)) {
            (Some(n), Some(k)) => same_node(n, nodes@[k]),
            (None, None) => true,
            _ => false,
        },
{
    let mut i: usize = 0;
    while i < nodes.len()
        invariant
            i <= nodes.len(),
            forall|j: int| 0 <= j < i ==> nodes@[j].id@ != id@,
        decreases nodes.len() - i,
    {
        if same_text(nodes[i].id.as_str(), id) {
            proof {
                lemma_first_node_index(nodes@, id@, i as int);
            }
            return Some(copy_node(&nodes[i]));
        }
        i += 1;
    }
    proof {
        lemma_first_node_index(nodes@, id@, i as int);
    }
    None
}

/// The node that the selected id names: looked up first among the canvas
/// nodes, then among the nodes of a successfully loaded table
/// (`selected_node`).
pub fn selected_node_from_sources(
    selected_id: Option<String>,
    canvas_data: Option<&TimelineNodeListData>,
    table_data: Option<&Result<Option<TimelineNodeListData>, String>>,
) -> (r: Option<TimelineNode>)
    ensures
        match (
            r,
            selected_node(
                crate::shell::opt_view(selected_id),
                match canvas_data {
                    Some(d) => Some(d.nodes@),
                    None => None,
                },
                table_nodes(table_data),
            ),
        ) {
            (Some(a), Some(b)) => same_node(a, b),
            (None, None) => true,
            _ => false,
        },
{
    let id = match selected_id {
        Some(id) => id,
        None => return None,
    };
    if let Some(data) = canvas_data {
        if let Some(found) = find_node(&data.nodes, id.as_str()) {
            return Some(found);
        }
    }
    match table_data {
        Some(Ok(Some(data))) => find_node(&data.nodes, id.as_str()),
        _ => None,
    }
}


/// A `desc=` or `description=` option (its key read without regard to ASCII
/// case or surrounding blanks) with a non-blank value sets the description to
/// the trimmed value, whatever the options before it did.
pub proof fn law_description_option_sets_description(
    cmd: CommandText,
    segs: Seq<Seq<char>>,
    k: Seq<char>,
    v: Seq<char>,
)
    requires
        !k.contains('='),
        lower_ascii(trim(k)) == "desc"@ || lower_ascii(trim(k)) == "description"@,
        !is_blank(v),
    ensures
        apply_options(cmd, segs.push(k + seq!['='] + v)).description == Some(trim(v)),
{
    reveal_strlit("title");
    reveal_strlit("desc");
    reveal_strlit("description");
    let seg = k + seq!['='] + v;
    let n = k.len() as int;
    assert(seg.subrange(n, n + 1) =~= seq!['=']);
    assert forall|j: int| 0 <= j < n implies !occurs_at(seg, seq!['='], j) by {
        if occurs_at(seg, seq!['='], j) {
            assert(seg.subrange(j, j + 1)[0] == seg[j]);
            assert(k[j] == '=');
        }
    }
    lemma_find_from(seg, seq!['='], 0, Some(n));
    assert(seg.take(n) =~= k);
    assert(seg.skip(n + 1) =~= v);
    assert(segs.push(seg).drop_last() =~= segs);
    assert(split_at_eq(seg) == Some((k, v)));
    let before = apply_options(cmd, segs);
    assert(trim(v).len() != 0);
    assert("desc"@.len() == 4);
    assert("title"@.len() == 5);
    assert(lower_ascii(trim(k)) != "title"@);
    assert(apply_option(before, seg) == (CommandText { description: Some(trim(v)), ..before }));
    assert(apply_option(before, seg).description == Some(trim(v)));
    assert(segs.push(seg).last() == seg);
}

} // verus!
