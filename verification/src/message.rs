//! A chat message and the line it is shown as.

use vstd::prelude::*;
use vstd::string::*;
use colored::Color;
use crate::style::{plain, render, renders, span_views, tint, Span};

verus! {

/// One chat message: who said what, and when.
#[derive(Debug, PartialEq, Eq)]
pub struct Message {
    pub sender: String,
    pub content: String,
    pub timestamp: String,
}

/// What the system clock shows, against the start of 1970.
#[derive(Clone, Copy, Debug, PartialEq, Eq)]
pub enum Reading {
    /// So many whole seconds after it.
    After(u64),
    /// So many whole seconds before it, and so many nanoseconds more.
    Before { secs: u64, nanos: u32 },
}

/// The second of the day, counted from midnight in universal time, at
/// which the clock was read. A day has 86400 seconds.
pub open spec fn second_of_day(reading: Reading) -> int {
    match reading {
        Reading::After(secs) => (secs as int) % 86400,
        Reading::Before { secs, nanos } => if nanos > 0 {
            (-(secs + 1)) % 86400
        } else {
            (-(secs as int)) % 86400
        },
    }
}

/// The decimal digit for `d`.
pub open spec fn digit(d: int) -> char {
    if d == 0 {
        '0'
    } else if d == 1 {
        '1'
    } else if d == 2 {
        '2'
    } else if d == 3 {
        '3'
    } else if d == 4 {
        '4'
    } else if d == 5 {
        '5'
    } else if d == 6 {
        '6'
    } else if d == 7 {
        '7'
    } else if d == 8 {
        '8'
    } else {
        '9'
    }
}

/// How a clock shows a second of the day: hour, minute and second, each
/// in two digits, with a colon between them.
pub open spec fn clock_face(second: int) -> Seq<char> {
    let h = second / 3600;
    let m = (second / 60) % 60;
    let s = second % 60;
    seq![
        digit(h / 10),
        digit(h % 10),
        ':',
        digit(m / 10),
        digit(m % 10),
        ':',
        digit(s / 10),
        digit(s % 10),
    ]
}

/// Whether `t` is a time of day as a clock shows it: the hour from 00 to
/// 23, minute and second from 00 to 59.
pub open spec fn is_clock_text(t: Seq<char>) -> bool {
    exists|second: int| 0 <= second < 86400 && t == #[trigger] clock_face(second)
}

/// Reads the system clock with `SystemTime::now` and measures it against
/// `UNIX_EPOCH` with `duration_since`, which tells on which side of it
/// the clock stands and how far. What the clock shows is open.
#[verifier::external_body]
pub(crate) fn read_clock() -> (reading: Reading) {
    match std::time::SystemTime::now().duration_since(std::time::UNIX_EPOCH) {
        Ok(after) => Reading::After(after.as_secs()),
        Err(e) => Reading::Before {
            secs: e.duration().as_secs(),
            nanos: e.duration().subsec_nanos(),
        },
    }
}

/// Formats a second of the day through `chrono`: the time that
/// `NaiveTime::from_num_seconds_from_midnight_opt` makes of it, which is
/// one for every second of a day, formatted with `%H:%M:%S`, each of the
/// three padded with a zero to two digits.
#[verifier::external_body]
pub(crate) fn format_clock(second: u32) -> (t: String)
    requires
        second < 86400,
    ensures
        t@ == clock_face(second as int),
{
    match chrono::NaiveTime::from_num_seconds_from_midnight_opt(second, 0) {
        Some(time) => time.format("%H:%M:%S").to_string(),
        None => String::new(),
    }
}

/// The second of the day at which the clock was read.
pub fn day_second(reading: Reading) -> (second: u32)
    ensures
        second == second_of_day(reading),
        second < 86400,
{
    match reading {
        Reading::After(secs) => (secs % 86400) as u32,
        Reading::Before { secs, nanos } => {
            let whole: u64 = secs % 86400;
            let back: u64 = if nanos > 0 {
                (whole + 1) % 86400
            } else {
                whole
            };
            proof {
                let total: int = if nanos > 0 {
                    secs + 1
                } else {
                    secs as int
                };
                assert(back == total % 86400) by (nonlinear_arith)
                    requires
                        whole == secs % 86400,
                        back == (if nanos > 0 {
                            (whole + 1) % 86400
                        } else {
                            whole as int
                        }),
                        total == (if nanos > 0 {
                            secs + 1
                        } else {
                            secs as int
                        }),
                ;
                assert((-total) % 86400 == (if back == 0 {
                    0
                } else {
                    86400 - back
                })) by (nonlinear_arith)
                    requires
                        back == total % 86400,
                ;
            }
            if back == 0 {
                0
            } else {
                (86400 - back) as u32
            }
        },
    }
}

/// The time of day at which the clock was read, as a clock shows it.
pub fn time_of_day(reading: Reading) -> (t: String)
    ensures
        t@ == clock_face(second_of_day(reading)),
        is_clock_text(t@),
{
    format_clock(day_second(reading))
}

/// The time of day as the system clock has it now.
pub fn clock_text() -> (t: String)
    ensures
        is_clock_text(t@),
{
    time_of_day(read_clock())
}

/// The spans that a message is shown as: the time in bright black, the
/// sender in `color`, then a colon and the content.
pub open spec fn message_spans(
    sender: Seq<char>,
    content: Seq<char>,
    timestamp: Seq<char>,
    color: Color,
) -> Seq<Span<Seq<char>>> {
    seq![
        tint(timestamp, Color::BrightBlack),
        plain(" "@),
        tint(sender, color),
        plain(": "@),
        plain(content),
    ]
}

impl Message {
    /// A message as the store holds it.
    pub fn from_database(sender: String, content: String, timestamp: String) -> (m: Message)
        ensures
            m.sender == sender,
            m.content == content,
            m.timestamp == timestamp,
    {
        Message { sender, content, timestamp }
    }

    /// A message that was just typed, stamped with the time of day.
    pub fn from_input(sender: String, content: String) -> (m: Message)
        ensures
            m.sender == sender,
            m.content == content,
            is_clock_text(m.timestamp@),
    {
        Message::from_database(sender, content, clock_text())
    }

    /// The spans that this message is shown as, the sender in `color`.
    pub fn styled(&self, color: Color) -> (spans: Vec<Span<String>>)
        ensures
            span_views(spans@) == message_spans(
                self.sender@,
                self.content@,
                self.timestamp@,
                color,
            ),
    {
        let spans = vec![
            Span::tint(self.timestamp.as_str(), Color::BrightBlack),
            Span::plain(" "),
            Span::tint(self.sender.as_str(), color),
            Span::plain(": "),
            Span::plain(self.content.as_str()),
        ];
        proof {
            assert(span_views(spans@) =~= message_spans(
                self.sender@,
                self.content@,
                self.timestamp@,
                color,
            ));
        }
        spans
    }

    /// The line that this message is shown as, the sender in `color`.
    pub fn format(&self, color: Color) -> (line: String)
        ensures
            renders(
                message_spans(self.sender@, self.content@, self.timestamp@, color),
                line@,
            ),
    {
        render(&self.styled(color))
    }
}

} // verus!
