//! The modification time of an entry, and its rendering in a time zone that
//! is given by its offset from UTC.

use crate::size::is_digit;
use vstd::arithmetic::div_mod::lemma_fundamental_div_mod_converse;
use vstd::prelude::*;

verus! {

/// A point in time and the zone to show it in: whole seconds since the start
/// of 1970 in UTC, the nanoseconds past that second, and the seconds by
/// which the zone's clock is ahead of UTC at that time.
#[derive(Clone, Copy, Debug)]
pub struct Timestamp {
    pub secs: i64,
    pub nanos: u32,
    pub offset: i32,
}

/// The first second that can be rendered: the start of the year 262144 BCE.
pub const FIRST_SECS: i64 = -8_334_601_228_800;

/// The last second that can be rendered: the end of the year 262142 CE.
pub const LAST_SECS: i64 = 8_210_266_876_799;

/// The nanoseconds of one second.
pub const SECOND_NANOS: u32 = 1_000_000_000;

/// The seconds of one day.
pub const DAY_SECS: i32 = 86_400;

/// The times that can be rendered: the second lies within the calendar, the
/// nanoseconds are less than a second's worth, or less than two where the
/// second is the last of its minute (a leap second), and the zone is less
/// than a day off UTC.
pub open spec fn renderable(secs: i64, nanos: u32, offset: i32) -> bool {
    &&& FIRST_SECS <= secs && secs <= LAST_SECS
    &&& (nanos < SECOND_NANOS || (nanos < 2 * SECOND_NANOS && (secs as int) % 60 == 59))
    &&& -DAY_SECS < offset && offset < DAY_SECS
}

/// Whether `c` is a letter of the English alphabet.
pub open spec fn is_letter(c: char) -> bool {
    ('a' <= c && c <= 'z') || ('A' <= c && c <= 'Z')
}

/// The shape of a rendered time: the day of the month in two places, the
/// first a space where the day has one digit; a space; the month's name in
/// three letters; a space; hour and minute in two digits each, with a colon
/// between them.
pub open spec fn is_stamp(text: Seq<char>) -> bool {
    &&& text.len() == 12
    &&& (text[0] == ' ' || is_digit(text[0]))
    &&& is_digit(text[1])
    &&& text[2] == ' '
    &&& is_letter(text[3])
    &&& is_letter(text[4])
    &&& is_letter(text[5])
    &&& text[6] == ' '
    &&& is_digit(text[7])
    &&& is_digit(text[8])
    &&& text[9] == ':'
    &&& is_digit(text[10])
    &&& is_digit(text[11])
}

/// The text of an optional string.
pub open spec fn text_of(text: Option<String>) -> Option<Seq<char>> {
    match text {
        Some(text) => Some(text@),
        None => None,
    }
}

/// What chrono writes for the time `secs` and `nanos` in the zone that is
/// `offset` seconds ahead of UTC, under the pattern `%_d %b %H:%M`; `None`
/// where chrono cannot hold the time or the zone.
pub uninterp spec fn stamp_at(secs: i64, nanos: u32, offset: i32) -> Option<Seq<char>>;

/// Renders a point in time with chrono: `DateTime::from_timestamp`,
/// `FixedOffset::east_opt`, then `with_timezone` and `format` with the
/// pattern `%_d %b %H:%M`.
///
/// The result depends on the three numbers alone. It is `None` exactly
/// where `from_timestamp` refuses the time, which is outside chrono's
/// calendar of the years 262144 BCE to 262142 CE or with nanoseconds that do
/// not fit the second, or `east_opt` refuses the offset, which is at a day or
/// more either way. The pattern fixes the shape: chrono writes the day and
/// the two numbers of the time in two places each, and the month as one of
/// its twelve English three-letter names.
#[verifier::external_body]
pub(crate) fn fixed_stamp(secs: i64, nanos: u32, offset: i32) -> (stamp: Option<String>)
    ensures
        text_of(stamp) == stamp_at(secs, nanos, offset),
        stamp matches Some(text) ==> is_stamp(text@),
        stamp is Some <==> renderable(secs, nanos, offset),
{
    match (chrono::DateTime::from_timestamp(secs, nanos), chrono::FixedOffset::east_opt(offset)) {
        (Some(utc), Some(zone)) => Some(utc.with_timezone(&zone).format("%_d %b %H:%M").to_string()),
        _ => None,
    }
}

/// The distance of a time from the start of 1970 in nanoseconds, negative
/// for a time before it.
pub open spec fn signed_nanos(before: bool, secs: u64, nanos: u32) -> int {
    if before {
        -(secs * SECOND_NANOS + nanos)
    } else {
        secs * SECOND_NANOS + nanos
    }
}

/// The whole seconds since the start of 1970, rounded down, and the
/// nanoseconds past them, of the time that lies `secs` seconds and `nanos`
/// nanoseconds after the start of 1970, or before it; `None` where `nanos`
/// is a second or more, or the seconds do not fit.
pub open spec fn epoch_time_of(before: bool, secs: u64, nanos: u32) -> Option<(i64, u32)> {
    let whole = signed_nanos(before, secs, nanos) / (SECOND_NANOS as int);
    let part = signed_nanos(before, secs, nanos) % (SECOND_NANOS as int);
    if nanos < SECOND_NANOS && i64::MIN <= whole && whole <= i64::MAX {
        Some((whole as i64, part as u32))
    } else {
        None
    }
}

/// Turns a distance from the start of 1970, as the clock gives it, into the
/// seconds and nanoseconds of a `Timestamp`.
pub fn epoch_time(before: bool, secs: u64, nanos: u32) -> (time: Option<(i64, u32)>)
    ensures
        time == epoch_time_of(before, secs, nanos),
{
    if nanos >= SECOND_NANOS {
        return None;
    }
    let ghost distance = signed_nanos(before, secs, nanos);
    if !before {
        proof {
            lemma_fundamental_div_mod_converse(
                distance,
                SECOND_NANOS as int,
                secs as int,
                nanos as int,
            );
        }
        if secs > i64::MAX as u64 {
            None
        } else {
            Some((secs as i64, nanos))
        }
    } else if nanos == 0 {
        proof {
            lemma_fundamental_div_mod_converse(distance, SECOND_NANOS as int, -(secs as int), 0);
        }
        if secs > i64::MAX as u64 + 1 {
            None
        } else if secs == i64::MAX as u64 + 1 {
            Some((i64::MIN, 0))
        } else {
            Some((-(secs as i64), 0))
        }
    } else {
        proof {
            lemma_fundamental_div_mod_converse(
                distance,
                SECOND_NANOS as int,
                -(secs as int) - 1,
                SECOND_NANOS - nanos,
            );
        }
        if secs > i64::MAX as u64 {
            None
        } else {
            Some((-(secs as i64) - 1, SECOND_NANOS - nanos))
        }
    }
}

} // verus!
