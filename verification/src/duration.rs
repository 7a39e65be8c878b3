//! Track lengths: ISO 8601 durations (as the YouTube API gives them) turned
//! into the `minutes:seconds` the search menu shows.

use crate::text::{decimal, decimal_text};
use vstd::prelude::*;
use vstd::string::*;

verus! {

/// An ISO 8601 duration, as the `iso8601` crate reads it.
#[derive(Debug, PartialEq, Eq)]
pub enum IsoDuration {
    /// Years, months, days, hours, minutes, seconds and milliseconds.
    Ymdhms {
        year: u32,
        month: u32,
        day: u32,
        hour: u32,
        minute: u32,
        second: u32,
        millisecond: u32,
    },
    /// A number of weeks.
    Weeks(u32),
}

/// What `iso8601::duration` reads from a text: the duration, or `None` when
/// it rejects the text.
pub uninterp spec fn iso8601_duration(text: Seq<char>) -> Option<IsoDuration>;

/// The text `PT{h}H{m}M{s}S`, the hours, minutes and seconds in decimal.
pub open spec fn hms_text(h: nat, m: nat, s: nat) -> Seq<char> {
    "PT"@ + decimal(h) + "H"@ + decimal(m) + "M"@ + decimal(s) + "S"@
}

/// `t` is a text `PT{h}H{m}M{s}S` whose numbers fit in a `u32`.
pub open spec fn is_hms_text(t: Seq<char>) -> bool {
    exists|h: u32, m: u32, s: u32| #[trigger] hms_text(h as nat, m as nat, s as nat) == t
}

/// The duration of `h` hours, `m` minutes and `s` seconds.
pub open spec fn hms_duration(h: u32, m: u32, s: u32) -> IsoDuration {
    IsoDuration::Ymdhms { year: 0, month: 0, day: 0, hour: h, minute: m, second: s, millisecond: 0 }
}

/// `iso8601::duration`. Claimed: a successful result is
/// `iso8601_duration(text)`; on failure `iso8601_duration(text)` is `None` and
/// the error reads "Failed to parse duration: " followed by the text, as the
/// crate's source writes it; and a text `PT{h}H{m}M{s}S` with each number
/// fitting a `u32` reads as `h` hours, `m` minutes and `s` seconds, as the
/// crate's grammar (`duration_ymdhms`, `duration_time`) gives it. Which other
/// texts it accepts, and how it reads them, is left to the name.
#[verifier::external_body]
fn iso8601_parse(text: &str) -> (res: Result<IsoDuration, String>)
    ensures
        match res {
            Ok(d) => iso8601_duration(text@) == Some(d),
            Err(e) => iso8601_duration(text@) is None && e@ == "Failed to parse duration: "@ + text@,
        },
        is_hms_text(text@) ==> res is Ok,
        res matches Ok(d) ==> forall|h: u32, m: u32, s: u32|
            #[trigger] hms_text(h as nat, m as nat, s as nat) == text@ ==> d == hms_duration(h, m, s),
{
    match iso8601::duration(text) {
        Ok(iso8601::Duration::YMDHMS { year, month, day, hour, minute, second, millisecond }) => Ok(
            IsoDuration::Ymdhms { year, month, day, hour, minute, second, millisecond },
        ),
        Ok(iso8601::Duration::Weeks(w)) => Ok(IsoDuration::Weeks(w)),
        Err(e) => Err(e),
    }
}

/// The minutes and seconds shown for a track of length `d`: the hours are
/// counted as minutes; days, months, years and milliseconds are left out;
/// a length given in weeks shows as no time at all.
pub open spec fn shown_length(d: IsoDuration) -> (int, int) {
    match d {
        IsoDuration::Ymdhms { hour, minute, second, .. } => (minute + 60 * hour, second as int),
        IsoDuration::Weeks(_) => (0, 0),
    }
}

/// The shown minutes of `d` fit in a `u32`.
pub open spec fn length_fits(d: IsoDuration) -> bool {
    shown_length(d).0 <= u32::MAX
}

/// The minutes and seconds shown for a track of length `d`.
pub fn track_length(d: &IsoDuration) -> (res: (u32, u32))
    requires
        length_fits(*d),
    ensures
        res.0 == shown_length(*d).0,
        res.1 == shown_length(*d).1,
{
    match d {
        IsoDuration::Ymdhms { hour, minute, second, .. } => (*minute + 60 * *hour, *second),
        IsoDuration::Weeks(_) => (0, 0),
    }
}

/// The length shown for the duration `text`, or `None` where reading it
/// would stop the bot: the text is no duration, or its minutes overflow.
pub open spec fn length_of(text: Seq<char>) -> Option<(int, int)> {
    match iso8601_duration(text) {
        Some(d) => if length_fits(d) {
            Some(shown_length(d))
        } else {
            None
        },
        None => None,
    }
}

/// The minutes and seconds shown for the duration `text`.
pub fn read_length(text: &str) -> (res: Option<(u32, u32)>)
    ensures
        match length_of(text@) {
            Some(l) => res == Some((l.0 as u32, l.1 as u32)),
            None => res is None,
        },
        forall|h: u32, m: u32, s: u32|
            #[trigger] hms_text(h as nat, m as nat, s as nat) == text@ && 60 * h + m
                <= u32::MAX ==> length_of(text@) == Some((60 * h + m, s as int)),
{
    match iso8601_parse(text) {
        Ok(d) => {
            let fits = match &d {
                IsoDuration::Ymdhms { hour, minute, .. } => *hour <= (u32::MAX - *minute) / 60,
                IsoDuration::Weeks(_) => true,
            };
            if fits {
                Some(track_length(&d))
            } else {
                None
            }
        },
        Err(_) => None,
    }
}

/// A text padded on the left with `0` to two characters, as `{:0>2}` does
/// for a one-digit number.
pub open spec fn two_digits(t: Seq<char>) -> Seq<char> {
    if t.len() < 2 {
        "0"@ + t
    } else {
        t
    }
}

/// `minutes:seconds`, the seconds written with two digits.
pub open spec fn length_text(minutes: nat, seconds: nat) -> Seq<char> {
    decimal(minutes) + ":"@ + two_digits(decimal(seconds))
}

/// `format!("{}:{:0>2}", minutes, seconds)`.
pub fn write_length(minutes: u32, seconds: u32) -> (res: String)
    ensures
        res@ == length_text(minutes as nat, seconds as nat),
{
    let mut res = decimal_text(minutes as u64);
    res.append(":");
    let s = decimal_text(seconds as u64);
    if s.unicode_len() < 2 {
        res.append("0");
    }
    res.append(s.as_str());
    res
}

} // verus!
