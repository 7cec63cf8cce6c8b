//! Timestamps as the relay shows them: the time of day for chat lines, the
//! long date for announcements. Both are rendered for the time zone of Rome
//! by `chrono` and `chrono-tz`; what comes back is checked for its shape
//! before it is used.

use vstd::prelude::*;
use crate::message::text_view;

verus! {

/// An ASCII digit.
pub open spec fn is_digit(c: char) -> bool {
    '0' <= c && c <= '9'
}

/// An ASCII letter.
pub open spec fn is_letter(c: char) -> bool {
    ('A' <= c && c <= 'Z') || ('a' <= c && c <= 'z')
}

/// Nothing but digits.
pub open spec fn all_digits(s: Seq<char>) -> bool {
    forall|i: int| 0 <= i < s.len() ==> is_digit(#[trigger] s[i])
}

/// The short form, `HH:MM:SS`: eight characters, digits around two colons.
pub open spec fn is_clock_shape(t: Seq<char>) -> bool {
    &&& t.len() == 8
    &&& is_digit(t[0])
    &&& is_digit(t[1])
    &&& t[2] == ':'
    &&& is_digit(t[3])
    &&& is_digit(t[4])
    &&& t[5] == ':'
    &&& is_digit(t[6])
    &&& is_digit(t[7])
}

/// A year: digits, with a sign in front where the year needs one.
pub open spec fn is_year_text(y: Seq<char>) -> bool {
    if y.len() > 0 && (y[0] == '+' || y[0] == '-') {
        y.len() >= 2 && all_digits(y.subrange(1, y.len() as int))
    } else {
        y.len() >= 1 && all_digits(y)
    }
}

/// The long form, `Www Mmm dD HH:MM:SS YYYY`: three letters of the weekday,
/// three of the month, the day of the month in two places with a space for a
/// missing first digit, the time of day, and the year.
pub open spec fn is_calendar_shape(t: Seq<char>) -> bool {
    &&& t.len() >= 21
    &&& is_letter(t[0])
    &&& is_letter(t[1])
    &&& is_letter(t[2])
    &&& t[3] == ' '
    &&& is_letter(t[4])
    &&& is_letter(t[5])
    &&& is_letter(t[6])
    &&& t[7] == ' '
    &&& (t[8] == ' ' || is_digit(t[8]))
    &&& is_digit(t[9])
    &&& t[10] == ' '
    &&& is_clock_shape(t.subrange(11, 19))
    &&& t[19] == ' '
    &&& is_year_text(t.subrange(20, t.len() as int))
}

/// Tells whether `c` is an ASCII digit.
pub fn is_digit_char(c: char) -> (yes: bool)
    ensures
        yes == is_digit(c),
{
    '0' <= c && c <= '9'
}

/// Tells whether `c` is an ASCII letter.
pub fn is_letter_char(c: char) -> (yes: bool)
    ensures
        yes == is_letter(c),
{
    ('A' <= c && c <= 'Z') || ('a' <= c && c <= 'z')
}

/// Tells whether the characters of `text` from `from` up to `to` are digits.
fn digits_between(text: &str, from: usize, to: usize) -> (yes: bool)
    requires
        from <= to <= text@.len(),
    ensures
        yes == all_digits(text@.subrange(from as int, to as int)),
{
    let ghost part = text@.subrange(from as int, to as int);
    let mut at: usize = from;
    while at < to
        invariant
            from <= at <= to,
            to <= text@.len(),
            part == text@.subrange(from as int, to as int),
            forall|i: int| 0 <= i < at - from ==> is_digit(#[trigger] part[i]),
        decreases to - at,
    {
        if !is_digit_char(text.get_char(at)) {
            assert(part[at - from] == text@[at as int]);
            return false;
        }
        at = at + 1;
    }
    true
}

/// Tells whether the eight characters of `text` from `from` on are a time of
/// day in the short form.
fn clock_shape_at(text: &str, from: usize, total: usize) -> (yes: bool)
    requires
        from + 8 <= total,
        total == text@.len(),
    ensures
        yes == is_clock_shape(text@.subrange(from as int, from + 8)),
{
    is_digit_char(text.get_char(from)) && is_digit_char(text.get_char(from + 1)) && text.get_char(
        from + 2,
    ) == ':' && is_digit_char(text.get_char(from + 3)) && is_digit_char(text.get_char(from + 4))
        && text.get_char(from + 5) == ':' && is_digit_char(text.get_char(from + 6))
        && is_digit_char(text.get_char(from + 7))
}

/// Tells whether `text` is a time of day in the short form.
pub fn has_clock_shape(text: &str) -> (yes: bool)
    ensures
        yes == is_clock_shape(text@),
{
    let total: usize = text.unicode_len();
    if total != 8 {
        return false;
    }
    clock_shape_at(text, 0, total)
}

/// Tells whether the characters of `text` from `from` on are a year.
fn year_text_from(text: &str, from: usize, total: usize) -> (yes: bool)
    requires
        from <= total,
        total == text@.len(),
    ensures
        yes == is_year_text(text@.subrange(from as int, total as int)),
{
    let ghost year = text@.subrange(from as int, total as int);
    if from == total {
        return false;
    }
    let first: char = text.get_char(from);
    if first == '+' || first == '-' {
        if total - from < 2 {
            return false;
        }
        assert(year.subrange(1, year.len() as int) == text@.subrange(from + 1, total as int));
        digits_between(text, from + 1, total)
    } else {
        digits_between(text, from, total)
    }
}

/// Tells whether `text` is a date in the long form.
pub fn has_calendar_shape(text: &str) -> (yes: bool)
    ensures
        yes == is_calendar_shape(text@),
{
    let total: usize = text.unicode_len();
    if total < 21 {
        return false;
    }
    let day_lead: char = text.get_char(8);
    is_letter_char(text.get_char(0)) && is_letter_char(text.get_char(1)) && is_letter_char(
        text.get_char(2),
    ) && text.get_char(3) == ' ' && is_letter_char(text.get_char(4)) && is_letter_char(
        text.get_char(5),
    ) && is_letter_char(text.get_char(6)) && text.get_char(7) == ' ' && (day_lead == ' '
        || is_digit_char(day_lead)) && is_digit_char(text.get_char(9)) && text.get_char(10) == ' '
        && clock_shape_at(text, 11, total) && text.get_char(19) == ' ' && year_text_from(
        text,
        20,
        total,
    )
}

/// The time of day in Rome at `unix_secs` seconds after the start of 1970
/// (UTC), as `chrono` renders it with the pattern `%T`; `None` where `chrono`
/// has no date for that instant.
pub uninterp spec fn rome_clock_text(unix_secs: i64) -> Option<Seq<char>>;

/// The date and time in Rome at `unix_secs` seconds after the start of 1970
/// (UTC), as `chrono` renders it with the pattern `%a %b %e %T %Y`; `None`
/// where `chrono` has no date for that instant.
pub uninterp spec fn rome_calendar_text(unix_secs: i64) -> Option<Seq<char>>;

/// Calls `chrono::DateTime::from_timestamp`, moves the instant to
/// `chrono_tz::Europe::Rome` with `DateTime::with_timezone` and renders it
/// with `DateTime::format` and the pattern `%T`.
///
/// Believed, not proved: the text depends on `unix_secs` alone, so the same
/// instant always gives the same text. The zone's rules are compiled into
/// `chrono-tz`; nothing of the machine's clock or settings is read. Nothing
/// is claimed of what the text holds.
#[verifier::external_body]
fn format_rome_clock(unix_secs: i64) -> (text: Option<String>)
    ensures
        text_view(text) == rome_clock_text(unix_secs),
{
    match chrono::DateTime::from_timestamp(unix_secs, 0) {
        Some(utc) => Some(utc.with_timezone(&chrono_tz::Europe::Rome).format("%T").to_string()),
        None => None,
    }
}

/// Calls `chrono::DateTime::from_timestamp`, moves the instant to
/// `chrono_tz::Europe::Rome` with `DateTime::with_timezone` and renders it
/// with `DateTime::format` and the pattern `%a %b %e %T %Y`.
///
/// Believed, not proved: the text depends on `unix_secs` alone, so the same
/// instant always gives the same text. Nothing is claimed of what the text
/// holds.
#[verifier::external_body]
fn format_rome_calendar(unix_secs: i64) -> (text: Option<String>)
    ensures
        text_view(text) == rome_calendar_text(unix_secs),
{
    match chrono::DateTime::from_timestamp(unix_secs, 0) {
        Some(utc) => Some(
            utc.with_timezone(&chrono_tz::Europe::Rome).format("%a %b %e %T %Y").to_string(),
        ),
        None => None,
    }
}

/// A rendered time of day, kept only if it has the short form.
pub open spec fn spec_checked_clock(rendered: Option<Seq<char>>) -> Option<Seq<char>> {
    match rendered {
        Some(t) => if is_clock_shape(t) {
            Some(t)
        } else {
            None
        },
        None => None,
    }
}

/// A rendered date, kept only if it has the long form.
pub open spec fn spec_checked_calendar(rendered: Option<Seq<char>>) -> Option<Seq<char>> {
    match rendered {
        Some(t) => if is_calendar_shape(t) {
            Some(t)
        } else {
            None
        },
        None => None,
    }
}

/// Keeps a rendered time of day if it has the short form.
pub fn checked_clock(rendered: Option<String>) -> (text: Option<String>)
    ensures
        text_view(text) == spec_checked_clock(text_view(rendered)),
{
    match rendered {
        Some(t) => {
            if has_clock_shape(t.as_str()) {
                Some(t)
            } else {
                None
            }
        },
        None => None,
    }
}

/// Keeps a rendered date if it has the long form.
pub fn checked_calendar(rendered: Option<String>) -> (text: Option<String>)
    ensures
        text_view(text) == spec_checked_calendar(text_view(rendered)),
{
    match rendered {
        Some(t) => {
            if has_calendar_shape(t.as_str()) {
                Some(t)
            } else {
                None
            }
        },
        None => None,
    }
}

/// The time of day in Rome at the instant `unix_secs`, in the short form
/// `HH:MM:SS`. `None` where the instant has no date or the rendering is not
/// of that form.
pub fn simple_local_time_string(unix_secs: i64) -> (text: Option<String>)
    ensures
        text_view(text) == spec_checked_clock(rome_clock_text(unix_secs)),
        text matches Some(t) ==> is_clock_shape(t@),
{
    checked_clock(format_rome_clock(unix_secs))
}

/// The date and time in Rome at the instant `unix_secs`, in the long form
/// `Www Mmm dD HH:MM:SS YYYY`. `None` where the instant has no date or the
/// rendering is not of that form.
pub fn full_local_time_string(unix_secs: i64) -> (text: Option<String>)
    ensures
        text_view(text) == spec_checked_calendar(rome_calendar_text(unix_secs)),
        text matches Some(t) ==> is_calendar_shape(t@),
{
    checked_calendar(format_rome_calendar(unix_secs))
}

/// The two renderings of one instant that the relay's texts carry.
#[derive(Clone, Debug, PartialEq, Eq)]
pub struct Stamp {
    clock: String,
    calendar: String,
}

/// A stamp as contracts see it.
pub struct StampView {
    pub clock: Seq<char>,
    pub calendar: Seq<char>,
}

impl View for Stamp {
    type V = StampView;

    closed spec fn view(&self) -> StampView {
        StampView { clock: self.clock@, calendar: self.calendar@ }
    }
}

impl StampView {
    /// Both texts have their form.
    pub open spec fn wf(self) -> bool {
        is_clock_shape(self.clock) && is_calendar_shape(self.calendar)
    }
}

/// The view of a stamp that may be absent.
pub open spec fn stamp_view(stamp: Option<Stamp>) -> Option<StampView> {
    match stamp {
        Some(s) => Some(s@),
        None => None,
    }
}

/// The stamp made of two renderings, where both are there and in form.
pub open spec fn spec_stamp_of(clock: Option<Seq<char>>, calendar: Option<Seq<char>>) -> Option<
    StampView,
> {
    match (spec_checked_clock(clock), spec_checked_calendar(calendar)) {
        (Some(c), Some(d)) => Some(StampView { clock: c, calendar: d }),
        _ => None,
    }
}

impl Stamp {
    /// Both texts have their form.
    pub open spec fn wf(&self) -> bool {
        self@.wf()
    }

    /// The stamp that shows `clock` as the time of day and `calendar` as the
    /// date, if each has its form.
    pub fn from_texts(clock: String, calendar: String) -> (stamp: Option<Stamp>)
        ensures
            stamp_view(stamp) == spec_stamp_of(Some(clock@), Some(calendar@)),
            stamp matches Some(s) ==> s.wf(),
    {
        if has_clock_shape(clock.as_str()) && has_calendar_shape(calendar.as_str()) {
            Some(Stamp { clock, calendar })
        } else {
            None
        }
    }

    /// The stamp for the instant `unix_secs` seconds after the start of 1970
    /// (UTC), shown in the time of Rome.
    pub fn at(unix_secs: i64) -> (stamp: Option<Stamp>)
        ensures
            stamp_view(stamp) == spec_stamp_of(
                rome_clock_text(unix_secs),
                rome_calendar_text(unix_secs),
            ),
            stamp matches Some(s) ==> s.wf(),
    {
        match simple_local_time_string(unix_secs) {
            Some(clock) => match full_local_time_string(unix_secs) {
                Some(calendar) => Some(Stamp { clock, calendar }),
                None => None,
            },
            None => None,
        }
    }

    /// The time of day, `HH:MM:SS`.
    pub fn clock(&self) -> (text: &str)
        ensures
            text@ == self@.clock,
    {
        self.clock.as_str()
    }

    /// The date and time, `Www Mmm dD HH:MM:SS YYYY`.
    pub fn calendar(&self) -> (text: &str)
        ensures
            text@ == self@.calendar,
    {
        self.calendar.as_str()
    }
}

} // verus!
