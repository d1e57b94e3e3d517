//! A length of time, written as a number and a unit.

use vstd::prelude::*;
use crate::text::{
    chars_of, digits_prefix_len, digits_value, is_digit, is_white_space,
    lemma_digits_prefix_len_is, lemma_space_prefix_len_is, lowercase, parse_digits, same_text,
    space_prefix_len, string_of, trim, trim_chars,
};

verus! {

/// A length of time.
#[derive(Debug, Clone, Copy)]
pub struct TimeConfig {
    pub milliseconds: u64,
}

/// What a text says as a length of time.
pub enum TimeParse {
    /// A length of that many milliseconds.
    Millis(u64),
    /// The text is empty or white space.
    Empty,
    /// The text starts with this character, which is no digit.
    NoNumber(char),
    /// The number is zero.
    Zero,
    /// The text after the number, in lower case, is no unit.
    BadUnit(Seq<char>),
    /// The number, or the length in milliseconds, does not fit in 64 bits.
    TooLarge,
}

/// The milliseconds in one of a unit, given in lower case.
pub open spec fn unit_millis(unit: Seq<char>) -> Option<u64> {
    if unit == "s"@ || unit == "sec"@ || unit == "second"@ {
        Some(1000u64)
    } else if unit == "m"@ || unit == "min"@ || unit == "minute"@ {
        Some(60_000u64)
    } else if unit == "h"@ || unit == "hour"@ {
        Some(3_600_000u64)
    } else {
        None
    }
}

/// The unit of a trimmed time text, in lower case: what follows the digits
/// at its start and the white space after them.
pub open spec fn time_unit(time: Seq<char>) -> Seq<char> {
    let rest = time.skip(digits_prefix_len(time));
    lowercase(rest.skip(space_prefix_len(rest)))
}

/// What a text says as a length of time. The text is trimmed; it must
/// start with a number other than zero, and go on, after any white space,
/// with a unit in any mix of upper and lower case.
pub open spec fn parse_time(text: Seq<char>) -> TimeParse {
    let time = trim(text);
    let number = digits_value(time.take(digits_prefix_len(time)));
    if time.len() == 0 {
        TimeParse::Empty
    } else if !is_digit(time[0]) {
        TimeParse::NoNumber(time[0])
    } else if number > u64::MAX {
        TimeParse::TooLarge
    } else if number == 0 {
        TimeParse::Zero
    } else {
        match unit_millis(time_unit(time)) {
            None => TimeParse::BadUnit(time_unit(time)),
            Some(millis) => if number * millis > u64::MAX {
                TimeParse::TooLarge
            } else {
                TimeParse::Millis((number * millis) as u64)
            },
        }
    }
}

/// The message that says why a text is no length of time.
pub open spec fn time_error(outcome: TimeParse) -> Seq<char> {
    match outcome {
        TimeParse::Millis(_) => Seq::empty(),
        TimeParse::Empty => "Time argument cannot be an empty string"@,
        TimeParse::NoNumber(first) => "Time must start with an integer, was '"@ + seq![first] + "'"@,
        TimeParse::Zero => "Time cannot be zero."@,
        TimeParse::BadUnit(unit) => "Invalid unit '"@ + unit
            + "'. Must be one of s, sec, second, m, min, minute, h, hour"@,
        TimeParse::TooLarge => "Time is too large"@,
    }
}

/// The milliseconds in one of a unit, given in lower case.
fn millis_of_unit(unit: &Vec<char>) -> (r: Option<u64>)
    ensures
        r == unit_millis(unit@),
{
    if same_text(unit, "s") || same_text(unit, "sec") || same_text(unit, "second") {
        Some(1000)
    } else if same_text(unit, "m") || same_text(unit, "min") || same_text(unit, "minute") {
        Some(60_000)
    } else if same_text(unit, "h") || same_text(unit, "hour") {
        Some(3_600_000)
    } else {
        None
    }
}

impl TimeConfig {
    /// Reads a length of time such as `90s`, `5 min` or `1Hour`.
    pub fn from_str(time: &str) -> (r: Result<Self, String>)
        ensures
            match parse_time(time@) {
                TimeParse::Millis(millis) => r matches Ok(config) && config.milliseconds == millis,
                outcome => r matches Err(message) && message@ == time_error(outcome),
            },
    {
        let chars = chars_of(time);
        let time = trim_chars(&chars);
        if time.len() == 0 {
            return Err("Time argument cannot be an empty string".to_owned());
        }
        let first = time[0];
        if !(first >= '0' && first <= '9') {
            let mut message = "Time must start with an integer, was '".to_owned();
            message.push(first);
            message.append("'");
            return Err(message);
        }
        let mut time_end: usize = 0;
        while time_end < time.len() && time[time_end] >= '0' && time[time_end] <= '9'
            invariant
                time_end <= time.len(),
                forall|j: int| 0 <= j < time_end ==> is_digit(time@[j]),
            decreases time.len() - time_end,
        {
            time_end += 1;
        }
        let mut unit_start: usize = time_end;
        while unit_start < time.len() && time[unit_start].is_whitespace()
            invariant
                time_end <= unit_start <= time.len(),
                forall|j: int| time_end <= j < unit_start ==> is_white_space(time@[j]),
            decreases time.len() - unit_start,
        {
            unit_start += 1;
        }
        let ghost rest = time@.skip(time_end as int);
        proof {
            lemma_digits_prefix_len_is(time@, time_end as int);
            lemma_space_prefix_len_is(rest, unit_start - time_end);
            assert(rest.skip(unit_start - time_end) =~= time@.subrange(
                unit_start as int,
                time.len() as int,
            ));
        }
        let time_value = match parse_digits(&time, 0, time_end) {
            Some(value) => value,
            None => {
                return Err("Time is too large".to_owned());
            },
        };
        if time_value == 0 {
            return Err("Time cannot be zero.".to_owned());
        }
        let unit_text = string_of(&time, unit_start, time.len());
        let unit_lower = unit_text.as_str().to_lowercase();
        let unit = chars_of(unit_lower.as_str());
        let millis = match millis_of_unit(&unit) {
            Some(millis) => millis,
            None => {
                let mut message = "Invalid unit '".to_owned();
                message.append(unit_lower.as_str());
                message.append("'. Must be one of s, sec, second, m, min, minute, h, hour");
                return Err(message);
            },
        };
        match time_value.checked_mul(millis) {
            Some(milliseconds) => Ok(Self { milliseconds }),
            None => Err("Time is too large".to_owned()),
        }
    }
}

impl std::str::FromStr for TimeConfig {
    type Err = String;

    fn from_str(s: &str) -> (r: Result<Self, String>)
        ensures
            match parse_time(s@) {
                TimeParse::Millis(millis) => r matches Ok(config) && config.milliseconds == millis,
                outcome => r matches Err(message) && message@ == time_error(outcome),
            },
    {
        TimeConfig::from_str(s)
    }
}

} // verus!
