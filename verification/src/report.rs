//! The wording of what is printed when the program panics.

use vstd::prelude::*;
use vstd::string::StringExecFns;
use crate::text::push_char;

verus! {

/// What a panic said: its text where it carried one, and a fixed stand-in
/// where its payload was no text.
pub open spec fn panic_message_spec(text: Option<String>) -> Seq<char> {
    match text {
        Some(t) => t@,
        None => "Box<Any>"@,
    }
}

/// The full report: what was said, where, and the stack at that point.
pub open spec fn crash_report_spec(message: Seq<char>, location: Seq<char>, stack: Seq<char>)
    -> Seq<char> {
    "thread '<unnamed>' panicked at '"@ + message + "', "@ + location + "\n\r"@ + stack
}

/// The short notice: what was said and where.
pub open spec fn crash_notice_spec(message: Seq<char>, location: Seq<char>) -> Seq<char> {
    "Error: '"@ + message + "' at "@ + location + "\n"@
}

/// The text with a carriage return after each line feed, as a terminal in
/// raw mode needs it.
pub open spec fn returned(text: Seq<char>) -> Seq<char>
    decreases text.len(),
{
    if text.len() == 0 {
        text
    } else if text.last() == '\n' {
        returned(text.drop_last()).push('\n').push('\r')
    } else {
        returned(text.drop_last()).push(text.last())
    }
}

/// Puts a carriage return after each line feed, so that a terminal in raw
/// mode starts every line at the left edge.
pub fn with_carriage_returns(text: &str) -> (out: String)
    ensures
        out@ == returned(text@),
{
    let mut out = String::new();
    for c in it: text.chars()
        invariant
            it.seq() == text@,
            out@ == returned(text@.take(it.index() as int)),
    {
        proof {
            let done = text@.take(it.index() as int);
            let next = text@.take(it.index() as int + 1);
            assert(next.drop_last() == done);
            assert(next.last() == c);
        }
        push_char(&mut out, c);
        if c == '\n' {
            push_char(&mut out, '\r');
        }
    }
    proof {
        assert(text@.take(text@.len() as int) == text@);
    }
    out
}

/// What a panic said: its text where it carried one, and a fixed stand-in
/// where its payload was no text.
pub fn panic_message(text: Option<String>) -> (message: String)
    ensures
        message@ == panic_message_spec(text),
{
    match text {
        Some(t) => t,
        None => String::from_str("Box<Any>"),
    }
}

/// The report printed by a build made for debugging.
pub fn crash_report(message: &str, location: &str, stack: &str) -> (report: String)
    ensures
        report@ == crash_report_spec(message@, location@, stack@),
{
    let mut report = String::from_str("thread '<unnamed>' panicked at '");
    report.append(message);
    report.append("', ");
    report.append(location);
    report.append("\n\r");
    report.append(stack);
    report
}

/// The notice printed by a build made for release.
pub fn crash_notice(message: &str, location: &str) -> (notice: String)
    ensures
        notice@ == crash_notice_spec(message@, location@),
{
    let mut notice = String::from_str("Error: '");
    notice.append(message);
    notice.append("' at ");
    notice.append(location);
    notice.append("\n");
    notice
}

} // verus!
