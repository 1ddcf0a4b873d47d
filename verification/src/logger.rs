//! The lines of the log.

use crate::text::{decimal, push_decimal};
use vstd::prelude::*;
use vstd::string::*;

verus! {

/// The text of a moment in universal time, given in seconds and nanoseconds since the epoch, in a
/// format of the calendar library; nothing for a moment that the library cannot hold.
pub uninterp spec fn utc_text(secs: i64, nanos: u32, format: Seq<char>) -> Option<Seq<char>>;

/// The format of the times in the log: date, time and milliseconds.
pub open spec fn time_format() -> Seq<char> {
    "%Y-%m-%d %H:%M:%S%.3f"@
}

/// `chrono::DateTime::from_timestamp`, and `format` of the time. The calendar is left to the
/// library. Other formats are left out, since a malformed one cannot be shown.
#[verifier::external_body]
fn format_utc(secs: i64, nanos: u32, format: &str) -> (r: Option<String>)
    requires
        format@ == time_format(),
    ensures
        match r {
            Some(t) => utc_text(secs, nanos, format@) == Some(t@),
            None => utc_text(secs, nanos, format@) is None,
        },
{
    chrono::DateTime::from_timestamp(secs, nanos).map(|time| time.format(format).to_string())
}

/// A text followed by as many spaces as it takes to fill five places.
pub open spec fn padded(s: Seq<char>) -> Seq<char>
    decreases 5 - s.len(),
{
    if s.len() >= 5 {
        s
    } else {
        padded(s.push(' '))
    }
}

/// A line of the log: time, level, place in the code, and message.
pub open spec fn log_line_text(
    time: Seq<char>,
    level: Seq<char>,
    module: Seq<char>,
    line: u32,
    message: Seq<char>,
) -> Seq<char> {
    time + seq![' '] + padded(level) + seq![' ', '['] + module + seq![':'] + decimal(
        line as nat,
    ) + seq![']', ' '] + message + seq!['\n']
}

/// A level fills at least five places: it is followed by spaces up to there, and by none where it is
/// long enough.
pub proof fn law_level_fills_five_places(s: Seq<char>)
    ensures
        s.len() >= 5 ==> padded(s) == s,
        s.len() < 5 ==> padded(s).len() == 5,
        padded(s).len() >= s.len(),
        forall|i: int| 0 <= i < s.len() ==> padded(s)[i] == #[trigger] s[i],
        forall|i: int| s.len() <= i < padded(s).len() ==> #[trigger] padded(s)[i] == ' ',
    decreases 5 - s.len(),
{
    if s.len() < 5 {
        law_level_fills_five_places(s.push(' '));
        assert forall|i: int| 0 <= i < s.len() implies padded(s)[i] == #[trigger] s[i] by {
            assert(s.push(' ')[i] == s[i]);
        }
        assert forall|i: int| s.len() <= i < padded(s).len() implies #[trigger] padded(s)[i]
            == ' ' by {
            if i == s.len() {
                assert(s.push(' ')[i] == ' ');
            }
        }
    }
}

/// A line of the log shows time, level, place and message, in this order, each whole, and ends the
/// line.
pub proof fn law_log_line_shows_all(
    time: Seq<char>,
    level: Seq<char>,
    module: Seq<char>,
    line: u32,
    message: Seq<char>,
)
    ensures
        ({
            let l = log_line_text(time, level, module, line, message);
            let t = time.len() as int;
            let w = if level.len() < 5 {
                5int
            } else {
                level.len() as int
            };
            let m = module.len() as int;
            let d = decimal(line as nat).len() as int;
            let a = t + w + 3;
            &&& l.len() == a + m + d + message.len() + 4
            &&& l.subrange(0, t) == time
            &&& l[t] == ' '
            &&& l.subrange(t + 1, t + 1 + level.len()) == level
            &&& forall|i: int| t + 1 + level.len() <= i < t + 1 + w ==> #[trigger] l[i] == ' '
            &&& l[a - 2] == ' ' && l[a - 1] == '['
            &&& l.subrange(a, a + m) == module
            &&& l[a + m] == ':'
            &&& l.subrange(a + m + 1, a + m + 1 + d) == decimal(line as nat)
            &&& l[a + m + d + 1] == ']' && l[a + m + d + 2] == ' '
            &&& l.subrange(a + m + d + 3, a + m + d + 3 + message.len()) == message
            &&& l.last() == '\n'
        }),
{
    law_level_fills_five_places(level);
    let l = log_line_text(time, level, module, line, message);
    let t = time.len() as int;
    let w = padded(level).len() as int;
    let m = module.len() as int;
    let d = decimal(line as nat).len() as int;
    let a = t + w + 3;
    assert(l.subrange(0, t) =~= time);
    assert forall|i: int| 0 <= i < w implies #[trigger] l[t + 1 + i] == padded(level)[i] by {}
    assert forall|i: int| 0 <= i < level.len() implies #[trigger] l.subrange(
        t + 1,
        t + 1 + level.len(),
    )[i] == level[i] by {
        assert(l[t + 1 + i] == padded(level)[i]);
    }
    assert(l.subrange(t + 1, t + 1 + level.len()) =~= level);
    assert forall|i: int| t + 1 + level.len() <= i < t + 1 + w implies #[trigger] l[i] == ' ' by {
        assert(l[t + 1 + (i - t - 1)] == padded(level)[i - t - 1]);
    }
    assert(l.subrange(a, a + m) =~= module);
    assert(l.subrange(a + m + 1, a + m + 1 + d) =~= decimal(line as nat));
    assert(l.subrange(a + m + d + 3, a + m + d + 3 + message.len()) =~= message);
}

fn pad(level: &str) -> (r: String)
    ensures
        r@ == padded(level@),
{
    let mut r = level.to_owned();
    let mut width: usize = level.unicode_len();
    while width < 5
        invariant
            width == r@.len(),
            padded(r@) == padded(level@),
        decreases 5 - width,
    {
        r.push(' ');
        width = width + 1;
    }
    r
}

/// A line of the log.
pub fn log_line(time: &str, level: &str, module: &str, line: u32, message: &str) -> (r: String)
    ensures
        r@ == log_line_text(time@, level@, module@, line, message@),
{
    let mut r = time.to_owned();
    r.push(' ');
    r.append(pad(level).as_str());
    r.push(' ');
    r.push('[');
    r.append(module);
    r.push(':');
    push_decimal(&mut r, line as u64);
    r.push(']');
    r.push(' ');
    r.append(message);
    r.push('\n');
    assert(r@ =~= log_line_text(time@, level@, module@, line, message@));
    r
}

/// A line of the log for a moment in universal time, nothing for a moment that has no text.
pub fn log_entry(
    secs: i64,
    nanos: u32,
    level: &str,
    module: &str,
    line: u32,
    message: &str,
) -> (r: Option<String>)
    ensures
        match r {
            Some(entry) => utc_text(secs, nanos, time_format()) is Some && entry@ == log_line_text(
                utc_text(secs, nanos, time_format())->0,
                level@,
                module@,
                line,
                message@,
            ),
            None => utc_text(secs, nanos, time_format()) is None,
        },
{
    match format_utc(secs, nanos, "%Y-%m-%d %H:%M:%S%.3f") {
        Some(time) => Some(log_line(time.as_str(), level, module, line, message)),
        None => None,
    }
}

} // verus!
