//! The layout of the lines that reach the console: a log line under its
//! label, and the notices of the single commands.

use vstd::prelude::*;
use vstd::string::*;
use crate::printer::{painted, tint, tinted, reset_sequence, Color};
use crate::text::{has_substring, occurs_at};

verus! {

/// The label in front of a log line: the time and the container's name in
/// square brackets, each in its color where `use_color` is set, and a space.
pub open spec fn label(use_color: bool, timestamp: Seq<char>, name: Seq<char>) -> Seq<char> {
    "["@ + tinted(use_color, Color::Cyan, timestamp) + " | "@ + tinted(
        use_color,
        Color::Green,
        name,
    ) + "] "@
}

/// A log line as it is shown: the label, then the line as the container
/// wrote it.
pub open spec fn log_line(
    use_color: bool,
    timestamp: Seq<char>,
    name: Seq<char>,
    line: Seq<char>,
) -> Seq<char> {
    label(use_color, timestamp, name) + line
}

/// What is shown in place of a container's log when its log process could
/// not be started.
pub open spec fn launch_failure(name: Seq<char>, use_color: bool) -> Seq<char> {
    tinted(use_color, Color::Red, "[ERROR] - Failed to log "@ + name)
}

/// The notice shown before an image is pulled.
pub open spec fn pull_announcement(
    container_name: Seq<char>,
    image_name: Seq<char>,
    use_color: bool,
) -> Seq<char> {
    tinted(use_color, Color::Cyan, "Pulling image for "@ + container_name + ": "@ + image_name)
}

/// Formats one log line of the container `name`, read at `timestamp`.
pub fn format_log_line(use_color: bool, timestamp: &str, name: &str, line: &str) -> (r: String)
    ensures
        r@ == log_line(use_color, timestamp@, name@, line@),
{
    let mut out = String::from_str("[");
    let stamp = tint(use_color, Color::Cyan, timestamp);
    out.append(stamp.as_str());
    out.append(" | ");
    let tag = tint(use_color, Color::Green, name);
    out.append(tag.as_str());
    out.append("] ");
    out.append(line);
    out
}

/// The line sent in place of the log of `name` when its log process could
/// not be started.
pub fn launch_failure_line(name: &str, use_color: bool) -> (r: String)
    ensures
        r@ == launch_failure(name@, use_color),
{
    let mut message = String::from_str("[ERROR] - Failed to log ");
    message.append(name);
    tint(use_color, Color::Red, message.as_str())
}

/// The notice shown before the running containers are listed: on a
/// terminal only, in magenta.
pub fn list_notice(use_color: bool) -> (r: Option<String>)
    ensures
        r is Some <==> use_color,
        r matches Some(s) ==> s@ == painted(Color::Magenta, "Listing docker containers..."@),
{
    if use_color {
        Some(tint(true, Color::Magenta, "Listing docker containers..."))
    } else {
        None
    }
}

/// The notice shown before containers are removed: in yellow on a terminal.
pub fn kill_notice(use_color: bool) -> (r: String)
    ensures
        r@ == tinted(use_color, Color::Yellow, "Killing docker containers..."@),
{
    tint(use_color, Color::Yellow, "Killing docker containers...")
}

/// The notice shown before the image of `container_name` is pulled: in cyan
/// on a terminal.
pub fn pull_notice(container_name: &str, image_name: &str, use_color: bool) -> (r: String)
    ensures
        r@ == pull_announcement(container_name@, image_name@, use_color),
{
    let mut message = String::from_str("Pulling image for ");
    message.append(container_name);
    message.append(": ");
    message.append(image_name);
    tint(use_color, Color::Cyan, message.as_str())
}

/// Without color a log line is the time and the name in their brackets and
/// then the line: every character of the three is kept, in that order, and
/// no escape sequence is added.
pub proof fn lemma_plain_layout(timestamp: Seq<char>, name: Seq<char>, line: Seq<char>)
    ensures
        log_line(false, timestamp, name, line) == "["@ + timestamp + " | "@ + name + "] "@ + line,
{
}

/// With color exactly the time and the name are wrapped: each stands
/// between the escape sequence of its color and the reset sequence that
/// closes it at once, and the brackets, the bar and the line are as in the
/// plain layout.
pub proof fn lemma_colored_layout(timestamp: Seq<char>, name: Seq<char>, line: Seq<char>)
    ensures
        log_line(true, timestamp, name, line) == "["@ + (Color::Cyan.escape() + timestamp
            + reset_sequence()) + " | "@ + (Color::Green.escape() + name + reset_sequence())
            + "] "@ + line,
{
}

/// In either mode the line that the container wrote ends the formatted
/// line, untouched: what stands before it is a label that does not depend
/// on it.
pub proof fn lemma_line_untouched(
    use_color: bool,
    timestamp: Seq<char>,
    name: Seq<char>,
    line: Seq<char>,
)
    ensures
        log_line(use_color, timestamp, name, line) == label(use_color, timestamp, name) + line,
        occurs_at(
            log_line(use_color, timestamp, name, line),
            line,
            label(use_color, timestamp, name).len() as int,
        ),
        has_substring(log_line(use_color, timestamp, name, line), line),
{
    let whole = log_line(use_color, timestamp, name, line);
    let at = label(use_color, timestamp, name).len() as int;
    assert(whole.subrange(at, at + line.len()) =~= line);
    assert(occurs_at(whole, line, at));
}

/// The position of the container's name in a log line: behind the opening
/// bracket, the time and the bar, and behind the escape sequence of its
/// color where there is one.
pub open spec fn name_offset(use_color: bool, timestamp: Seq<char>) -> int {
    ("["@ + tinted(use_color, Color::Cyan, timestamp) + " | "@).len() + if use_color {
        Color::Green.escape().len() as int
    } else {
        0
    }
}

/// A log line shows the name it was formatted with, in one piece: after
/// the time, before the line.
pub proof fn lemma_line_shows_name(
    use_color: bool,
    timestamp: Seq<char>,
    name: Seq<char>,
    line: Seq<char>,
)
    ensures
        occurs_at(
            log_line(use_color, timestamp, name, line),
            name,
            name_offset(use_color, timestamp),
        ),
        has_substring(log_line(use_color, timestamp, name, line), name),
{
    let whole = log_line(use_color, timestamp, name, line);
    let at = name_offset(use_color, timestamp);
    assert(whole.subrange(at, at + name.len()) =~= name);
    assert(occurs_at(whole, name, at));
}

/// Two log lines that differ only in the name they were formatted with
/// differ: the label tells the containers apart.
pub proof fn lemma_label_tells_names_apart(
    use_color: bool,
    timestamp: Seq<char>,
    name: Seq<char>,
    other: Seq<char>,
    line: Seq<char>,
)
    requires
        name != other,
    ensures
        log_line(use_color, timestamp, name, line) != log_line(use_color, timestamp, other, line),
{
    let a = log_line(use_color, timestamp, name, line);
    let b = log_line(use_color, timestamp, other, line);
    let at = name_offset(use_color, timestamp);
    lemma_line_shows_name(use_color, timestamp, name, line);
    lemma_line_shows_name(use_color, timestamp, other, line);
    if a == b {
        assert(a.len() == b.len());
        assert(name.len() == other.len());
        assert(a.subrange(at, at + name.len()) == name);
        assert(b.subrange(at, at + other.len()) == other);
        assert(name =~= other);
    }
}

} // verus!
