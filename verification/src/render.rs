//! The text of the report: the segments of a line, the line of a branch, and
//! the lines of all branches.

use crate::category::{
    categorize, category_from, category_of, category_tint, has_remote_prefix, is_head, is_remote,
    is_version, is_version_name, tint_of,
};
use crate::clock::{
    can_render, clock_text, has_instant, is_zone_offset, local_offset, time_text_at, TIME_LAYOUT,
};
use crate::model::{BranchRecord, RecordView, TipCommit, TipView};
use crate::paint::{is_painting, paint, Tint};
use vstd::prelude::*;

verus! {

/// A time stamp in its brackets; a question mark stands for a time that could
/// not be rendered.
pub open spec fn time_stamp(stamp: Option<Seq<char>>) -> Seq<char> {
    "["@ + match stamp {
        Some(text) => text,
        None => "?"@,
    } + "]"@
}

/// The text for the instant `time` seconds after the Unix epoch as seen
/// `offset` seconds east of UTC; none where the offset is not known or the
/// instant cannot be rendered.
pub open spec fn stamp_at(time: int, offset: Option<i32>) -> Option<Seq<char>> {
    match offset {
        Some(seconds) => clock_text(time, seconds as int, TIME_LAYOUT@),
        None => None,
    }
}

/// The time segment for `time` at `offset`: the time stamp, in blue.
pub open spec fn is_time_segment_at(out: Seq<char>, time: int, offset: Option<i32>) -> bool {
    is_painting(out, time_stamp(stamp_at(time, offset)), Tint::Blue)
}

/// Whether there is a time stamp for `time` at `offset`: the instant can be
/// represented and the offset is known and less than a day.
pub open spec fn has_stamp(time: int, offset: Option<i32>) -> bool {
    match offset {
        Some(seconds) => can_render(time, seconds as int),
        None => false,
    }
}

/// A time segment for `time` in the zone of some machine. Where the instant
/// can be represented, it is the time stamp at some offset of less than a
/// day, and that stamp is a date; where not, it is the question mark.
pub open spec fn is_time_segment(out: Seq<char>, time: int) -> bool {
    if has_instant(time) {
        exists|seconds: i32|
            {
                &&& is_zone_offset(seconds as int)
                &&& stamp_at(time, Some(seconds)) is Some
                &&& #[trigger] is_time_segment_at(out, time, Some(seconds))
            }
    } else {
        is_time_segment_at(out, time, None)
    }
}

/// The first eight characters of a commit id, or all of a shorter one.
pub open spec fn short_id_of(id: Seq<char>) -> Seq<char> {
    if id.len() >= 8 {
        id.take(8)
    } else {
        id
    }
}

/// The id shown for a tip commit; `Unknown` for a tip that did not resolve.
pub open spec fn commit_id_text(tip: Option<TipView>) -> Seq<char> {
    match tip {
        Some(commit) => short_id_of(commit.id),
        None => "Unknown"@,
    }
}

/// The marker of a branch: a green `*` on the branch that is checked out, a
/// red `@` on any other remote-tracking branch, else a blank.
pub open spec fn is_mark(out: Seq<char>, is_head: bool, is_remote: bool) -> bool {
    if is_head {
        is_painting(out, "*"@, Tint::Green)
    } else if is_remote {
        is_painting(out, "@"@, Tint::Red)
    } else {
        out == " "@
    }
}

/// Each of the three markers is a single character.
pub proof fn lemma_marks_are_single_characters()
    ensures
        "*"@ == seq!['*'],
        "@"@ == seq!['@'],
        " "@ == seq![' '],
{
    reveal_strlit("*");
    reveal_strlit("@");
    reveal_strlit(" ");
}

/// A marker segment: the marker of the branch, painted green once more.
pub open spec fn is_mark_segment(out: Seq<char>, is_head: bool, is_remote: bool) -> bool {
    exists|mark: Seq<char>| #[trigger]
        is_mark(mark, is_head, is_remote) && is_painting(out, mark, Tint::Green)
}

/// The colour of the name of a branch with the given flags.
pub open spec fn name_tint(is_head: bool, is_remote: bool, name: Seq<char>) -> Tint {
    category_tint(category_from(is_head, is_remote, name, is_version_name(name)))
}

/// Four segments with one blank between neighbours.
pub open spec fn joined(time: Seq<char>, id: Seq<char>, mark: Seq<char>, name: Seq<char>) -> Seq<
    char,
> {
    time + " "@ + id + " "@ + mark + " "@ + name
}

/// `line` is the line of `record`: a time segment, the short id in yellow,
/// the marker segment and the name in the colour of its category.
pub open spec fn is_line_of(line: Seq<char>, record: RecordView) -> bool {
    exists|time: Seq<char>, id: Seq<char>, mark: Seq<char>, name: Seq<char>|
        {
            &&& line == #[trigger] joined(time, id, mark, name)
            &&& is_time_segment(time, record.commit_time)
            &&& is_painting(id, record.short_id, Tint::Yellow)
            &&& is_mark_segment(mark, record.is_head, record.is_remote)
            &&& is_painting(
                name,
                record.name,
                name_tint(record.is_head, record.is_remote, record.name),
            )
        }
}

/// The indentation of a detail line: thirty-two blanks.
pub const DETAIL_INDENT: &'static str = "                                ";

/// The indentation is thirty-two characters wide and blank throughout.
pub proof fn lemma_detail_indent_is_blank()
    ensures
        DETAIL_INDENT@ == Seq::new(32, |i: int| ' '),
{
    reveal_strlit("                                ");
}

/// `line` is the detail line for `summary`: the indentation, then the summary
/// in green.
pub open spec fn is_detail_of(line: Seq<char>, summary: Seq<char>) -> bool {
    exists|message: Seq<char>|
        line == DETAIL_INDENT@ + message && #[trigger] is_painting(
            message,
            summary,
            Tint::Green,
        )
}

/// Puts a rendered time, or a question mark in place of a missing one, in
/// brackets.
pub fn bracket_time(stamp: Option<&str>) -> (out: String)
    ensures
        out@ == time_stamp(stamp.deep_view()),
{
    let mut out = String::from_str("[");
    match stamp {
        Some(text) => out.append(text),
        None => out.append("?"),
    }
    out.append("]");
    out
}

/// The time segment for a commit time in seconds since the Unix epoch, as
/// seen `offset` seconds east of UTC: `[YYYY.MM.DD HH:MM]` in blue. It is
/// `[?]` exactly where the offset is not known or not less than a day, or
/// the instant cannot be represented.
pub fn format_time_at(time: i64, offset: Option<i32>) -> (out: String)
    ensures
        is_time_segment_at(out@, time as int, offset),
        stamp_at(time as int, offset) is Some <==> has_stamp(time as int, offset),
{
    let stamp = match offset {
        Some(seconds) => time_text_at(time, seconds, TIME_LAYOUT),
        None => None,
    };
    let text = match &stamp {
        Some(found) => bracket_time(Some(found.as_str())),
        None => bracket_time(None),
    };
    paint(text.as_str(), Tint::Blue)
}

/// The time segment for a commit time in seconds since the Unix epoch, in the
/// time zone of this machine. It is `[?]` only for an instant that cannot be
/// represented.
pub fn format_commit_time(time: i64) -> (out: String)
    ensures
        is_time_segment(out@, time as int),
{
    let offset = local_offset(time);
    let out = format_time_at(time, offset);
    assert(is_time_segment_at(out@, time as int, offset));
    out
}

/// The first eight characters of `id`, or all of a shorter one.
pub fn short_id(id: &str) -> (out: String)
    ensures
        out@ == short_id_of(id@),
{
    if id.unicode_len() >= 8 {
        String::from_str(id.substring_char(0, 8))
    } else {
        String::from_str(id)
    }
}

/// The id shown for a tip commit.
pub fn format_commit_id(tip: Option<&TipCommit>) -> (out: String)
    ensures
        out@ == commit_id_text(tip.deep_view()),
{
    match tip {
        Some(commit) => short_id(commit.id.as_str()),
        None => String::from_str("Unknown"),
    }
}

/// The first line of the message of a tip commit, if the tip resolved and
/// has one.
pub fn latest_commit_message(tip: Option<&TipCommit>) -> (message: Option<String>)
    ensures
        message.deep_view() == match tip.deep_view() {
            Some(commit) => commit.summary,
            None => None,
        },
{
    match tip {
        Some(commit) => match &commit.summary {
            Some(line) => Some(line.clone()),
            None => None,
        },
        None => None,
    }
}

/// The marker for a branch with the given flags.
pub fn mark_for(is_head: bool, is_remote: bool) -> (out: String)
    ensures
        is_mark(out@, is_head, is_remote),
{
    if is_head {
        paint("*", Tint::Green)
    } else if is_remote {
        paint("@", Tint::Red)
    } else {
        String::from_str(" ")
    }
}

/// The marker for the branch `name` while `head` is checked out.
pub fn current_mark(name: &str, head: Option<&str>) -> (out: String)
    ensures
        is_mark(out@, head.deep_view() == Some(name@), has_remote_prefix(name@)),
{
    mark_for(is_head(name, head), is_remote(name))
}

/// The name of a branch with the given flags, in the colour of its category.
pub fn name_for(is_head: bool, is_remote: bool, name: &str) -> (out: String)
    ensures
        is_painting(out@, name@, name_tint(is_head, is_remote, name@)),
{
    let versioned = is_version(name);
    let category = categorize(is_head, is_remote, name, versioned);
    paint(name, tint_of(category))
}

/// The name of the branch `name`, in the colour of its category while `head`
/// is checked out.
pub fn format_branch_name(name: &str, head: Option<&str>) -> (out: String)
    ensures
        is_painting(
            out@,
            name@,
            category_tint(category_of(name@, head.deep_view(), is_version_name(name@))),
        ),
{
    name_for(is_head(name, head), is_remote(name), name)
}

/// Joins the four segments of a line with single blanks.
pub fn join_line(time: &str, id: &str, mark: &str, name: &str) -> (line: String)
    ensures
        line@ == joined(time@, id@, mark@, name@),
{
    let mut line = String::from_str(time);
    line.append(" ");
    line.append(id);
    line.append(" ");
    line.append(mark);
    line.append(" ");
    line.append(name);
    line
}

/// The line of `record`.
pub fn render_line(record: &BranchRecord) -> (line: String)
    ensures
        is_line_of(line@, record.deep_view()),
{
    let time = format_commit_time(record.commit_time);
    let id = paint(record.short_id.as_str(), Tint::Yellow);
    let mark = mark_for(record.is_head, record.is_remote);
    let mark_segment = paint(mark.as_str(), Tint::Green);
    let name = name_for(record.is_head, record.is_remote, record.name.as_str());
    let line = join_line(time.as_str(), id.as_str(), mark_segment.as_str(), name.as_str());
    assert(is_mark_segment(mark_segment@, record.is_head, record.is_remote));
    line
}

/// The detail line for `summary`.
pub fn render_detail(summary: &str) -> (line: String)
    ensures
        is_detail_of(line@, summary@),
{
    let message = paint(summary, Tint::Green);
    let mut line = String::from_str(DETAIL_INDENT);
    line.append(message.as_str());
    assert(is_painting(message@, summary@, Tint::Green));
    line
}

} // verus!
