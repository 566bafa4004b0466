//! The record written out for a reader: one labelled line for each of the
//! device, the logger, the start and the tick, one for frame rate and
//! format, one for the resolution.

use crate::calendar::timestamp_text;
use crate::calendar::utc_text;
use crate::calendar::LAST_SECOND;
use crate::record::Record;
use crate::record::VideoMeta;
use vstd::prelude::*;
use vstd::string::StringExecFns;

verus! {

/// The character of a decimal digit.
pub open spec fn digit(d: nat) -> char {
    if d == 0 {
        '0'
    } else if d == 1 {
        '1'
    } else if d == 2 {
        '2'
    } else if d == 3 {
        '3'
    } else if d == 4 {
        '4'
    } else if d == 5 {
        '5'
    } else if d == 6 {
        '6'
    } else if d == 7 {
        '7'
    } else if d == 8 {
        '8'
    } else {
        '9'
    }
}

/// A number in decimal, without sign, padding or leading zeros.
pub open spec fn decimal(n: nat) -> Seq<char>
    decreases n,
{
    if n < 10 {
        seq![digit(n)]
    } else {
        decimal(n / 10).push(digit(n % 10))
    }
}

/// The six lines of a record, given the texts of its start and its tick.
pub open spec fn rendering(r: Record, capture: Seq<char>, tick: Seq<char>) -> Seq<char> {
    "Device ID: "@ + r.device_identifier + "\nLogger ID: "@ + r.logger_identifier
        + "\nCapture Start: "@ + capture + "\nTick: "@ + tick + "\nFPS: "@ + decimal(r.frame_rate)
        + " Format: "@ + r.format + "\nResolution: "@ + decimal(r.resolution_height) + " by "@
        + decimal(r.resolution_width)
}

/// The text of a record's start: its whole seconds as a date and a time of
/// day, and behind them the milliseconds that are left, which stand in the
/// place of nanoseconds.
pub open spec fn capture_text(r: Record) -> Option<Seq<char>> {
    utc_text(r.capture_start as int / 1000, r.capture_start as int % 1000)
}

/// The text of a record's tick: its whole seconds as a date and a time of
/// day.
pub open spec fn tick_text(r: Record) -> Option<Seq<char>> {
    utc_text(r.tick as int / 1000, 0)
}

/// The six lines of a record, where both of its times can be written out.
pub open spec fn rendered(r: Record) -> Option<Seq<char>> {
    if capture_text(r) is Some && tick_text(r) is Some {
        Some(rendering(r, capture_text(r)->0, tick_text(r)->0))
    } else {
        None
    }
}

fn digit_text(d: u64) -> (text: &'static str)
    requires
        d < 10,
    ensures
        text@ == seq![digit(d as nat)],
{
    proof {
        reveal_strlit("0");
        reveal_strlit("1");
        reveal_strlit("2");
        reveal_strlit("3");
        reveal_strlit("4");
        reveal_strlit("5");
        reveal_strlit("6");
        reveal_strlit("7");
        reveal_strlit("8");
        reveal_strlit("9");
    }
    let text = if d == 0 {
        "0"
    } else if d == 1 {
        "1"
    } else if d == 2 {
        "2"
    } else if d == 3 {
        "3"
    } else if d == 4 {
        "4"
    } else if d == 5 {
        "5"
    } else if d == 6 {
        "6"
    } else if d == 7 {
        "7"
    } else if d == 8 {
        "8"
    } else {
        "9"
    };
    assert(text@ =~= seq![digit(d as nat)]);
    text
}

/// Writes a number in decimal.
pub fn decimal_text(n: u64) -> (text: String)
    ensures
        text@ == decimal(n as nat),
    decreases n,
{
    if n < 10 {
        String::from_str(digit_text(n))
    } else {
        let mut text = decimal_text(n / 10);
        text.append(digit_text(n % 10));
        assert(text@ =~= decimal(n as nat));
        text
    }
}

impl VideoMeta {
    /// Writes the six lines of the record around the given texts of its
    /// start and its tick. The lines are parted by line feeds, and none
    /// follows the last.
    pub fn render_with(&self, capture: &str, tick: &str) -> (text: String)
        ensures
            text@ == rendering(self@, capture@, tick@),
    {
        let mut text = String::from_str("Device ID: ");
        text.append(self.device_id.as_str());
        text.append("\nLogger ID: ");
        text.append(self.logger_id.as_str());
        text.append("\nCapture Start: ");
        text.append(capture);
        text.append("\nTick: ");
        text.append(tick);
        text.append("\nFPS: ");
        text.append(decimal_text(self.fps as u64).as_str());
        text.append(" Format: ");
        text.append(self.format.as_str());
        text.append("\nResolution: ");
        text.append(decimal_text(self.res_y as u64).as_str());
        text.append(" by ");
        text.append(decimal_text(self.res_x as u64).as_str());
        text
    }

    /// Writes the record out for a reader. There is a text exactly where
    /// both the start and the tick lie no later than the last second that
    /// can be written out.
    pub fn render(&self) -> (text: Option<String>)
        ensures
            match text {
                Some(t) => rendered(self@) == Some(t@),
                None => rendered(self@) is None,
            },
            text is Some <==> self.capture_start / 1000 <= LAST_SECOND && self.tick / 1000
                <= LAST_SECOND,
    {
        let capture = timestamp_text(
            (self.capture_start / 1000) as i64,
            (self.capture_start % 1000) as u32,
        );
        let tick = timestamp_text((self.tick / 1000) as i64, 0);
        match (capture, tick) {
            (Some(capture), Some(tick)) => Some(self.render_with(capture.as_str(), tick.as_str())),
            _ => None,
        }
    }
}

} // verus!
