//! Generation of upload filenames: local time to the second, an underscore,
//! and a five-digit random suffix.

use vstd::prelude::*;
use chrono::Datelike;
use chrono::Timelike;
use crate::digits::spec_padded;
use crate::digits::is_digit_char;
use crate::digits::lemma_padded_is_digits;
use crate::digits::decimal_padded;

verus! {

/// A local calendar time, broken into the fields the filename shows.
#[derive(Debug, Clone, Copy, PartialEq, Eq, Structural)]
pub struct TimeParts {
    pub year: u16,
    pub month: u8,
    pub day: u8,
    pub hour: u8,
    pub minute: u8,
    pub second: u8,
}

/// The fields fit a calendar date and a four-digit year.
pub open spec fn valid_time(t: TimeParts) -> bool {
    &&& t.year <= 9999
    &&& 1 <= t.month <= 12
    &&& 1 <= t.day <= 31
    &&& t.hour <= 23
    &&& t.minute <= 59
    &&& t.second <= 59
}

/// The random suffix is always five digits.
pub open spec fn valid_suffix(suffix: u32) -> bool {
    10000 <= suffix <= 99999
}

/// The stem of an upload filename: `YYYYMMDDHHMMSS_NNNNN`.
pub open spec fn spec_filename(t: TimeParts, suffix: u32) -> Seq<char> {
    spec_padded(t.year as nat, 4) + spec_padded(t.month as nat, 2) + spec_padded(t.day as nat, 2)
        + spec_padded(t.hour as nat, 2) + spec_padded(t.minute as nat, 2) + spec_padded(
        t.second as nat,
        2,
    ) + "_"@ + spec_padded(suffix as nat, 5)
}

/// Law: a generated stem is fourteen digits, one underscore, five digits.
///
/// Uniqueness of two stems drawn in the same second is not guaranteed: the
/// suffixes are independent random draws, and a collision silently reuses
/// the same remote filename.
pub proof fn lemma_filename_pattern(t: TimeParts, suffix: u32)
    ensures
        spec_filename(t, suffix).len() == 20,
        forall|i: int| 0 <= i < 14 ==> is_digit_char(spec_filename(t, suffix)[i]),
        spec_filename(t, suffix)[14] == '_',
        forall|i: int| 15 <= i < 20 ==> is_digit_char(spec_filename(t, suffix)[i]),
{
    reveal_strlit("_");
    lemma_padded_is_digits(t.year as nat, 4);
    lemma_padded_is_digits(t.month as nat, 2);
    lemma_padded_is_digits(t.day as nat, 2);
    lemma_padded_is_digits(t.hour as nat, 2);
    lemma_padded_is_digits(t.minute as nat, 2);
    lemma_padded_is_digits(t.second as nat, 2);
    lemma_padded_is_digits(suffix as nat, 5);
}

/// Renders the stem `YYYYMMDDHHMMSS_NNNNN` for a time and a suffix.
pub fn make_filename(t: &TimeParts, suffix: u32) -> (r: String)
    ensures
        r@ == spec_filename(*t, suffix),
{
    proof {
        reveal_strlit("_");
    }
    let r = decimal_padded(t.year as u64, 4);
    let r = r.concat(decimal_padded(t.month as u64, 2).as_str());
    let r = r.concat(decimal_padded(t.day as u64, 2).as_str());
    let r = r.concat(decimal_padded(t.hour as u64, 2).as_str());
    let r = r.concat(decimal_padded(t.minute as u64, 2).as_str());
    let r = r.concat(decimal_padded(t.second as u64, 2).as_str());
    let r = r.concat("_");
    let r = r.concat(decimal_padded(suffix as u64, 5).as_str());
    r
}

/// Appends a dot and an extension to a filename stem.
pub fn with_extension(stem: &str, ext: &str) -> (r: String)
    ensures
        r@ == stem@ + "."@ + ext@,
{
    stem.to_owned().concat(".").concat(ext)
}

/// Relies on chrono::Local::now and its Datelike/Timelike accessors: month,
/// day, hour, minute and second fall in their calendar ranges; the year is
/// whatever the local clock shows.
#[verifier::external_body]
fn local_now_fields() -> (r: (i32, u32, u32, u32, u32, u32))
    ensures
        1 <= r.1 <= 12,
        1 <= r.2 <= 31,
        r.3 <= 23,
        r.4 <= 59,
        r.5 <= 59,
{
    let now = chrono::Local::now();
    (now.year(), now.month(), now.day(), now.hour(), now.minute(), now.second())
}

/// Relies on rand::random_range: a uniform sample between the two bounds.
#[verifier::external_body]
fn random_in(lo: u32, hi: u32) -> (r: u32)
    requires
        lo <= hi,
    ensures
        lo <= r <= hi,
{
    rand::random_range(lo..=hi)
}

/// The time fields as the clock hands them over, packed for rendering.
pub open spec fn spec_time_parts(
    year: i32,
    month: u32,
    day: u32,
    hour: u32,
    minute: u32,
    second: u32,
) -> TimeParts {
    TimeParts {
        year: year as u16,
        month: month as u8,
        day: day as u8,
        hour: hour as u8,
        minute: minute as u8,
        second: second as u8,
    }
}

/// Decides and renders the stem for one draw of the clock and the random
/// source: a stem comes back exactly when the year has at most four
/// digits, and it is the rendering of those very fields.
pub fn stem_for(
    year: i32,
    month: u32,
    day: u32,
    hour: u32,
    minute: u32,
    second: u32,
    suffix: u32,
) -> (r: Option<String>)
    requires
        1 <= month <= 12,
        1 <= day <= 31,
        hour <= 23,
        minute <= 59,
        second <= 59,
        valid_suffix(suffix),
    ensures
        r is Some <==> 0 <= year <= 9999,
        r matches Some(s) ==> s@ == spec_filename(
            spec_time_parts(year, month, day, hour, minute, second),
            suffix,
        ),
{
    if 0 <= year && year <= 9999 {
        let t = TimeParts {
            year: year as u16,
            month: month as u8,
            day: day as u8,
            hour: hour as u8,
            minute: minute as u8,
            second: second as u8,
        };
        Some(make_filename(&t, suffix))
    } else {
        None
    }
}

/// Draws the current local time and a fresh random suffix and renders the
/// stem through `stem_for`, which pins the decision: `None` only when the
/// local clock shows a year outside 0..=9999.
pub fn fresh_stem() -> (r: Option<String>)
    ensures
        r matches Some(s) ==> exists|t: TimeParts, suffix: u32|
            valid_time(t) && valid_suffix(suffix) && s@ == #[trigger] spec_filename(t, suffix),
{
    let (year, month, day, hour, minute, second) = local_now_fields();
    let suffix = random_in(10000, 99999);
    let r = stem_for(year, month, day, hour, minute, second, suffix);
    proof {
        if r is Some {
            let t = spec_time_parts(year, month, day, hour, minute, second);
            assert(valid_time(t) && valid_suffix(suffix) && r->0@ == spec_filename(t, suffix));
        }
    }
    r
}

} // verus!
