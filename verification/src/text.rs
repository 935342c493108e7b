//! The text that the logger produces: one line per event, a closing line, and
//! the diagnostic for a file that cannot be opened.

use vstd::prelude::*;
use vstd::string::*;

verus! {

/// One line of the file: the timestamp in square brackets, a space, the
/// message, and the line terminator.
pub open spec fn line_text(timestamp: Seq<char>, message: Seq<char>) -> Seq<char> {
    seq!['['] + timestamp + seq![']', ' '] + message + seq!['\n']
}

/// The message of the closing line.
pub open spec fn end_marker() -> Seq<char> {
    seq!['E', 'N', 'D', ' ', 'L', 'O', 'G']
}

/// The closing line written when a logger is torn down.
pub open spec fn end_text(timestamp: Seq<char>) -> Seq<char> {
    line_text(timestamp, end_marker())
}

/// The diagnostic for a log file that could not be opened, naming its path.
pub open spec fn open_failure_text(path: Seq<char>) -> Seq<char> {
    "ERROR: Could not open the file "@ + path + " for appending."@
}

/// The text holds no line terminator.
pub open spec fn single_line(text: Seq<char>) -> bool {
    forall|i: int| 0 <= i < text.len() ==> text[i] != '\n'
}

/// A decimal digit.
pub open spec fn is_digit(c: char) -> bool {
    '0' <= c <= '9'
}

/// Every character of the text from position `from` on is a digit.
pub open spec fn digits_from(text: Seq<char>, from: int) -> bool {
    forall|i: int| from <= i < text.len() ==> is_digit(#[trigger] text[i])
}

/// The year of a timestamp: four digits, or a sign and four digits or more.
pub open spec fn is_year(text: Seq<char>) -> bool {
    ||| text.len() == 4 && digits_from(text, 0)
    ||| text.len() >= 5 && (text[0] == '+' || text[0] == '-') && digits_from(text, 1)
}

/// What follows the year: month, day and time of day, as in `-01-15 12:34:56`.
pub open spec fn is_day_and_time(text: Seq<char>) -> bool {
    &&& text.len() == 15
    &&& text[0] == '-' && is_digit(text[1]) && is_digit(text[2])
    &&& text[3] == '-' && is_digit(text[4]) && is_digit(text[5])
    &&& text[6] == ' ' && is_digit(text[7]) && is_digit(text[8])
    &&& text[9] == ':' && is_digit(text[10]) && is_digit(text[11])
    &&& text[12] == ':' && is_digit(text[13]) && is_digit(text[14])
}

/// The fraction of a second: nothing, or a dot and three, six or nine digits.
pub open spec fn is_fraction(text: Seq<char>) -> bool {
    ||| text.len() == 0
    ||| (text.len() == 4 || text.len() == 7 || text.len() == 10) && text[0] == '.'
        && digits_from(text, 1)
}

/// The end of every timestamp: a space and the name of the time zone.
pub open spec fn utc_suffix() -> Seq<char> {
    seq![' ', 'U', 'T', 'C']
}

/// A timestamp put together from its parts.
pub open spec fn stamp_text(year: Seq<char>, day_and_time: Seq<char>, fraction: Seq<char>) -> Seq<
    char,
> {
    year + day_and_time + fraction + utc_suffix()
}

/// What stands between the brackets: a rendered UTC instant, as in
/// `2024-01-15 12:34:56.789123456 UTC`. It is a year, the day and the time
/// of day, a fraction of a second where there is one, and ` UTC`.
pub open spec fn is_timestamp(text: Seq<char>) -> bool {
    exists|year: Seq<char>, day_and_time: Seq<char>, fraction: Seq<char>|
        is_year(year) && is_day_and_time(day_and_time) && is_fraction(fraction) && text
            == #[trigger] stamp_text(year, day_and_time, fraction)
}

/// The number of line terminators in the text, which is the number of complete lines.
pub open spec fn line_count(text: Seq<char>) -> nat
    decreases text.len(),
{
    if text.len() == 0 {
        0
    } else {
        line_count(text.drop_last()) + if text.last() == '\n' {
            1nat
        } else {
            0nat
        }
    }
}

/// Formats the line for one event.
pub fn record_line(timestamp: &str, message: &str) -> (line: String)
    ensures
        line@ == line_text(timestamp@, message@),
{
    proof {
        reveal_strlit("[");
        reveal_strlit("] ");
        reveal_strlit("\n");
    }
    let mut line = String::from_str("[");
    line.append(timestamp);
    line.append("] ");
    line.append(message);
    line.append("\n");
    line
}

/// Formats the closing line.
pub fn end_line(timestamp: &str) -> (line: String)
    ensures
        line@ == end_text(timestamp@),
{
    proof {
        reveal_strlit("END LOG");
    }
    record_line(timestamp, "END LOG")
}

/// Formats the diagnostic for a log file that could not be opened.
pub fn open_failure(path: &str) -> (text: String)
    ensures
        text@ == open_failure_text(path@),
{
    let mut text = String::from_str("ERROR: Could not open the file ");
    text.append(path);
    text.append(" for appending.");
    text
}

/// Lines add up: the count of a concatenation is the sum of the counts.
pub proof fn lemma_line_count_concat(head: Seq<char>, tail: Seq<char>)
    ensures
        line_count(head + tail) == line_count(head) + line_count(tail),
    decreases tail.len(),
{
    if tail.len() == 0 {
    } else {
        assert((head + tail).drop_last() =~= head + tail.drop_last());
        lemma_line_count_concat(head, tail.drop_last());
    }
}

/// A text without a line terminator holds no complete line.
pub proof fn lemma_single_line_count(text: Seq<char>)
    requires
        single_line(text),
    ensures
        line_count(text) == 0,
    decreases text.len(),
{
    if text.len() > 0 {
        lemma_single_line_count(text.drop_last());
    }
}

/// A timestamp is never empty and holds no line terminator.
pub proof fn lemma_timestamp_is_single_line(text: Seq<char>)
    requires
        is_timestamp(text),
    ensures
        text.len() >= 23,
        single_line(text),
{
    let (year, day_and_time, fraction) = choose|
        year: Seq<char>,
        day_and_time: Seq<char>,
        fraction: Seq<char>,
    |
        is_year(year) && is_day_and_time(day_and_time) && is_fraction(fraction) && text
            == #[trigger] stamp_text(year, day_and_time, fraction);
    let y = year.len() as int;
    let f = fraction.len() as int;
    assert forall|i: int| 0 <= i < text.len() implies text[i] != '\n' by {
        if i < y {
            assert(text[i] == year[i]);
        } else if i < y + 15 {
            assert(text[i] == day_and_time[i - y]);
        } else if i < y + 15 + f {
            assert(text[i] == fraction[i - y - 15]);
        } else {
            assert(text[i] == utc_suffix()[i - y - 15 - f]);
        }
    }
}

/// A timestamp and a message without a line terminator make exactly one line,
/// and its terminator ends the text.
pub proof fn lemma_line_text_is_one_line(timestamp: Seq<char>, message: Seq<char>)
    requires
        single_line(timestamp),
        single_line(message),
    ensures
        line_count(line_text(timestamp, message)) == 1,
        line_text(timestamp, message).last() == '\n',
        single_line(line_text(timestamp, message).drop_last()),
{
    let body = seq!['['] + timestamp + seq![']', ' '] + message;
    assert(line_text(timestamp, message).drop_last() =~= body);
    lemma_single_line_count(body);
}

} // verus!
