//! Where a recording is saved: a file named after the local time at which
//! the capture began, to the second, in a directory of its own below the
//! application's data directory.
//!
//! The time comes from whoever reads the clock. Writing it out is `chrono`'s
//! work.

use vstd::prelude::*;
use vstd::string::StringExecFns;

verus! {

/// A local calendar time, to the second.
#[derive(Clone, Copy, Debug, PartialEq, Eq, Structural)]
pub struct LocalTime {
    pub year: i32,
    pub month: u32,
    pub day: u32,
    pub hour: u32,
    pub minute: u32,
    pub second: u32,
}

/// Whether a year of the Gregorian calendar has a 29th of February.
pub open spec fn is_leap_year(year: int) -> bool {
    year % 4 == 0 && (year % 100 != 0 || year % 400 == 0)
}

/// The number of days of a month of the Gregorian calendar.
pub open spec fn days_in_month(year: int, month: int) -> int {
    if month == 2 {
        if is_leap_year(year) {
            29
        } else {
            28
        }
    } else if month == 4 || month == 6 || month == 9 || month == 11 {
        30
    } else {
        31
    }
}

impl LocalTime {
    /// Whether the fields name a second of a day that the Gregorian calendar
    /// has.
    pub open spec fn is_calendar_time(self) -> bool {
        &&& 1 <= self.month <= 12
        &&& 1 <= self.day <= days_in_month(self.year as int, self.month as int)
        &&& self.hour <= 23
        &&& self.minute <= 59
        &&& self.second <= 59
    }
}

/// What `chrono` writes for a calendar time under a `strftime` pattern, or
/// `None` where it writes nothing: the fields name no calendar time, or the
/// pattern cannot be applied to one.
pub uninterp spec fn formatted_time(
    pattern: Seq<char>,
    year: int,
    month: int,
    day: int,
    hour: int,
    minute: int,
    second: int,
) -> Option<Seq<char>>;

/// `formatted_time` of a `LocalTime`.
pub open spec fn formatted(pattern: Seq<char>, time: LocalTime) -> Option<Seq<char>> {
    formatted_time(
        pattern,
        time.year as int,
        time.month as int,
        time.day as int,
        time.hour as int,
        time.minute as int,
        time.second as int,
    )
}

/// The text of an optional string.
pub open spec fn text_of(s: Option<String>) -> Option<Seq<char>> {
    match s {
        Some(s) => Some(s@),
        None => None,
    }
}

/// The character of a decimal digit.
pub open spec fn digit_char(d: int) -> char {
    if d == 0 {
        '0'
    } else if d == 1 {
        '1'
    } else if d == 2 {
        '2'
    } else if d == 3 {
        '3'
    } else if d == 4 {
        '4'
    } else if d == 5 {
        '5'
    } else if d == 6 {
        '6'
    } else if d == 7 {
        '7'
    } else if d == 8 {
        '8'
    } else {
        '9'
    }
}

/// The last two decimal digits of `n`.
pub open spec fn two_digits(n: int) -> Seq<char> {
    seq![digit_char(n / 10 % 10), digit_char(n % 10)]
}

/// The last four decimal digits of `n`.
pub open spec fn four_digits(n: int) -> Seq<char> {
    seq![
        digit_char(n / 1000 % 10),
        digit_char(n / 100 % 10),
        digit_char(n / 10 % 10),
        digit_char(n % 10),
    ]
}

/// The time stamp of a calendar time in the years 0 to 9999: the year in
/// four digits, month and day in two each, an underscore, and hour, minute
/// and second in two digits each.
pub open spec fn stamp_text(time: LocalTime) -> Seq<char> {
    four_digits(time.year as int) + two_digits(time.month as int) + two_digits(time.day as int)
        + seq!['_'] + two_digits(time.hour as int) + two_digits(time.minute as int) + two_digits(
        time.second as int,
    )
}

/// `chrono::NaiveDateTime::format`, written out with
/// `DelayedFormat::write_to`, on the time built by
/// `NaiveDate::from_ymd_opt` and `NaiveDate::and_hms_opt`. `None` comes back
/// where one of the two constructors or the writer reports a failure. The
/// result depends on the pattern and the six fields alone and is given the
/// name `formatted_time`. Two more things are claimed, for the pattern
/// `%Y%m%d_%H%M%S` and the years 0 to 9999. A text comes back exactly for the
/// calendar times: the constructors refuse a day that the calendar does not
/// have and an hour, minute or second out of range, and accept all others;
/// the writer has nothing in this pattern that it could fail on. And the text
/// is `stamp_text`: `%Y` writes such a year in four digits padded with zeros,
/// and `%m`, `%d`, `%H`, `%M` and `%S` each write two digits padded with
/// zeros.
#[verifier::external_body]
fn format_time(time: &LocalTime, pattern: &str) -> (text: Option<String>)
    ensures
        text_of(text) == formatted_time(
            pattern@,
            time.year as int,
            time.month as int,
            time.day as int,
            time.hour as int,
            time.minute as int,
            time.second as int,
        ),
        pattern@ == stamp_pattern() && 0 <= time.year <= 9999 ==> (text.is_some()
            <==> time.is_calendar_time()),
        text.is_some() && pattern@ == stamp_pattern() && 0 <= time.year <= 9999
            ==> text.unwrap()@ == stamp_text(*time),
{
    let date = chrono::NaiveDate::from_ymd_opt(time.year, time.month, time.day)?;
    let stamp = date.and_hms_opt(time.hour, time.minute, time.second)?;
    let mut text = String::new();
    stamp.format(pattern).write_to(&mut text).ok()?;
    Some(text)
}

/// The pattern of a recording's time stamp: year, month, day, an underscore,
/// hour, minute, second.
pub open spec fn stamp_pattern() -> Seq<char> {
    "%Y%m%d_%H%M%S"@
}

/// The name of the directory that holds the recordings.
pub open spec fn recordings_dir_name() -> Seq<char> {
    "recordings"@
}

/// The file name made from a time stamp: the stamp and the extension of a
/// waveform file.
pub open spec fn file_name_of(stamp: Option<Seq<char>>) -> Option<Seq<char>> {
    match stamp {
        Some(stamp) => Some(stamp + ".wav"@),
        None => None,
    }
}

/// Names a recording's file after its time stamp.
pub fn file_name_from_stamp(stamp: Option<String>) -> (name: Option<String>)
    ensures
        text_of(name) == file_name_of(text_of(stamp)),
{
    match stamp {
        Some(stamp) => Some(stamp.concat(".wav")),
        None => None,
    }
}

/// The name of the file for a capture that began at `time`.
///
/// In the years 0 to 9999 every calendar time has a name, the time stamp
/// with the extension of a waveform file, and nothing else has one. Outside
/// those years the name is whatever `chrono` writes for the time, if it
/// writes anything.
pub fn recording_file_name(time: &LocalTime) -> (name: Option<String>)
    ensures
        text_of(name) == file_name_of(formatted(stamp_pattern(), *time)),
        0 <= time.year <= 9999 ==> (name.is_some() <==> time.is_calendar_time()),
        name.is_some() && 0 <= time.year <= 9999 ==> name.unwrap()@ == stamp_text(*time)
            + ".wav"@,
{
    file_name_from_stamp(format_time(time, "%Y%m%d_%H%M%S"))
}

/// Where a recording goes, below the application's data directory.
#[derive(Debug, PartialEq, Eq)]
pub struct SavePath {
    /// The directory for recordings, to be made if it is absent.
    pub directory: String,
    /// The file in that directory.
    pub file_name: String,
}

/// The place of the file for a capture that began at `time`: the recordings
/// directory and the file named after `time`. In the years 0 to 9999 every
/// calendar time has a place and nothing else has one.
pub fn get_save_path(time: &LocalTime) -> (place: Option<SavePath>)
    ensures
        0 <= time.year <= 9999 ==> (place.is_some() <==> time.is_calendar_time()),
        match place {
            Some(place) => place.directory@ == recordings_dir_name() && Some(place.file_name@)
                == file_name_of(formatted(stamp_pattern(), *time)) && (0 <= time.year <= 9999
                ==> place.file_name@ == stamp_text(*time) + ".wav"@),
            None => formatted(stamp_pattern(), *time).is_none(),
        },
{
    match recording_file_name(time) {
        Some(file_name) => Some(SavePath { directory: String::from_str("recordings"), file_name }),
        None => None,
    }
}

/// A digit is known by its character.
proof fn lemma_digit_char_injective(a: int, b: int)
    requires
        0 <= a <= 9,
        0 <= b <= 9,
        digit_char(a) == digit_char(b),
    ensures
        a == b,
{
}

/// A number below a hundred is known by its two digits.
proof fn lemma_two_digits_injective(a: int, b: int)
    requires
        0 <= a < 100,
        0 <= b < 100,
        two_digits(a) == two_digits(b),
    ensures
        a == b,
{
    assert(two_digits(a)[0] == two_digits(b)[0]);
    assert(two_digits(a)[1] == two_digits(b)[1]);
    lemma_digit_char_injective(a / 10 % 10, b / 10 % 10);
    lemma_digit_char_injective(a % 10, b % 10);
}

/// A number below ten thousand is known by its four digits.
proof fn lemma_four_digits_injective(a: int, b: int)
    requires
        0 <= a < 10000,
        0 <= b < 10000,
        four_digits(a) == four_digits(b),
    ensures
        a == b,
{
    assert(four_digits(a)[0] == four_digits(b)[0]);
    assert(four_digits(a)[1] == four_digits(b)[1]);
    assert(four_digits(a)[2] == four_digits(b)[2]);
    assert(four_digits(a)[3] == four_digits(b)[3]);
    lemma_digit_char_injective(a / 1000 % 10, b / 1000 % 10);
    lemma_digit_char_injective(a / 100 % 10, b / 100 % 10);
    lemma_digit_char_injective(a / 10 % 10, b / 10 % 10);
    lemma_digit_char_injective(a % 10, b % 10);
}

/// A time stamp has fifteen characters.
pub proof fn lemma_stamp_length(time: LocalTime)
    ensures
        stamp_text(time).len() == 15,
        stamp_text(time)[8] == '_',
{
}

/// Time stamps tell seconds apart: two calendar times in the years 0 to
/// 9999 that differ in any field have different stamps, and so different
/// file names.
pub proof fn lemma_stamps_tell_times_apart(a: LocalTime, b: LocalTime)
    requires
        a.is_calendar_time(),
        b.is_calendar_time(),
        0 <= a.year <= 9999,
        0 <= b.year <= 9999,
        a != b,
    ensures
        stamp_text(a) != stamp_text(b),
        stamp_text(a) + ".wav"@ != stamp_text(b) + ".wav"@,
{
    let sa = stamp_text(a);
    let sb = stamp_text(b);
    if sa == sb {
        assert(four_digits(a.year as int) =~= sa.subrange(0, 4));
        assert(four_digits(b.year as int) =~= sb.subrange(0, 4));
        lemma_four_digits_injective(a.year as int, b.year as int);
        assert(two_digits(a.month as int) =~= sa.subrange(4, 6));
        assert(two_digits(b.month as int) =~= sb.subrange(4, 6));
        lemma_two_digits_injective(a.month as int, b.month as int);
        assert(two_digits(a.day as int) =~= sa.subrange(6, 8));
        assert(two_digits(b.day as int) =~= sb.subrange(6, 8));
        lemma_two_digits_injective(a.day as int, b.day as int);
        assert(two_digits(a.hour as int) =~= sa.subrange(9, 11));
        assert(two_digits(b.hour as int) =~= sb.subrange(9, 11));
        lemma_two_digits_injective(a.hour as int, b.hour as int);
        assert(two_digits(a.minute as int) =~= sa.subrange(11, 13));
        assert(two_digits(b.minute as int) =~= sb.subrange(11, 13));
        lemma_two_digits_injective(a.minute as int, b.minute as int);
        assert(two_digits(a.second as int) =~= sa.subrange(13, 15));
        assert(two_digits(b.second as int) =~= sb.subrange(13, 15));
        lemma_two_digits_injective(a.second as int, b.second as int);
        assert(a == b);
    }
    if sa + ".wav"@ == sb + ".wav"@ {
        lemma_stamp_length(a);
        lemma_stamp_length(b);
        assert(sa =~= (sa + ".wav"@).subrange(0, 15));
        assert(sb =~= (sb + ".wav"@).subrange(0, 15));
    }
}

} // verus!
