use vstd::prelude::*;
use crate::number::{digit_char, digits_of, unsigned_text};
use crate::text::{lit, trim_start, trim_start_char};

verus! {

/// A moment of local time as the report shows it.
#[derive(Clone, Copy, Debug, PartialEq, Eq, Structural)]
pub struct LocalTime {
    /// 1 to 12.
    pub month: u32,
    /// 1 to 31.
    pub day: u32,
    /// 0 to 23.
    pub hour: u32,
    /// 0 to 59.
    pub minute: u32,
}

impl LocalTime {
    /// Whether each field is within its calendar range.
    pub open spec fn wf(self) -> bool {
        1 <= self.month <= 12 && 1 <= self.day <= 31 && self.hour < 24 && self.minute < 60
    }
}

/// The greeting for an hour of the day, with its emoji.
pub open spec fn salutation(hour: int) -> Seq<char> {
    if 6 <= hour <= 11 {
        "\u{1f307} Good morning"@
    } else if 12 <= hour <= 17 {
        "\u{1f3d9}\u{fe0f} Good afternoon"@
    } else if 18 <= hour <= 22 {
        "\u{1f306} Good evening"@
    } else {
        "\u{1f303} Good night"@
    }
}

/// The greeting for `name` at `hour`.
pub fn greeting(hour: u32, name: &str) -> (r: String)
    ensures
        r@ == salutation(hour as int) + ", "@ + name@,
{
    let word = if 6 <= hour && hour <= 11 {
        lit("\u{1f307} Good morning")
    } else if 12 <= hour && hour <= 17 {
        lit("\u{1f3d9}\u{fe0f} Good afternoon")
    } else if 18 <= hour && hour <= 22 {
        lit("\u{1f306} Good evening")
    } else {
        lit("\u{1f303} Good night")
    };
    word.concat(", ").concat(name)
}

/// The ordinal suffix of a day of the month.
pub open spec fn day_suffix(day: int) -> Seq<char> {
    if day == 1 || day == 21 || day == 31 {
        "st"@
    } else if day == 2 || day == 22 {
        "nd"@
    } else if day == 3 || day == 23 {
        "rd"@
    } else {
        "th"@
    }
}

/// A day of the month with its ordinal suffix, as in `21st`.
pub fn ordinal_day(day: u32) -> (r: String)
    ensures
        r@ == digits_of(day as nat) + day_suffix(day as int),
{
    let suffix = if day == 1 || day == 21 || day == 31 {
        "st"
    } else if day == 2 || day == 22 {
        "nd"
    } else if day == 3 || day == 23 {
        "rd"
    } else {
        "th"
    };
    unsigned_text(day as u64).concat(suffix)
}

/// The English name of a month, 1 being January.
pub open spec fn month_name(m: int) -> Seq<char> {
    if m == 1 {
        "January"@
    } else if m == 2 {
        "February"@
    } else if m == 3 {
        "March"@
    } else if m == 4 {
        "April"@
    } else if m == 5 {
        "May"@
    } else if m == 6 {
        "June"@
    } else if m == 7 {
        "July"@
    } else if m == 8 {
        "August"@
    } else if m == 9 {
        "September"@
    } else if m == 10 {
        "October"@
    } else if m == 11 {
        "November"@
    } else {
        "December"@
    }
}

/// Relies on chrono's `Month::try_from(u8)` (1 is January, through 12) and
/// `Month::name`, the month's English name.
#[verifier::external_body]
fn chrono_month_name(m: u8) -> (r: String)
    requires
        1 <= m <= 12,
    ensures
        r@ == month_name(m as int),
{
    chrono::Month::try_from(m).unwrap().name().to_string()
}

/// Two decimal digits of a number below 100.
pub open spec fn two_digits(n: int) -> Seq<char> {
    seq![digit_char(n / 10), digit_char(n % 10)]
}

/// How the clock is shown.
#[derive(Clone, Copy, Debug, PartialEq, Eq, Structural)]
pub enum TimeFormat {
    Hours12,
    Hours24,
    Off,
}

/// The clock format that a configured name selects.
pub open spec fn format_named(s: Seq<char>) -> TimeFormat {
    if s == "12h"@ {
        TimeFormat::Hours12
    } else if s == "24h"@ {
        TimeFormat::Hours24
    } else {
        TimeFormat::Off
    }
}

impl TimeFormat {
    /// The clock format that a configured name selects; any other name
    /// turns the clock off.
    pub fn from_name(s: &str) -> (r: TimeFormat)
        ensures
            r == format_named(s@),
    {
        let t = String::from_str(s);
        if t == lit("12h") {
            TimeFormat::Hours12
        } else if t == lit("24h") {
            TimeFormat::Hours24
        } else {
            TimeFormat::Off
        }
    }
}

/// The hour on a twelve-hour dial, 12 standing for 0.
pub open spec fn dial_hour(hour: int) -> int {
    if hour % 12 == 0 {
        12
    } else {
        hour % 12
    }
}

/// The time of day in a format.
pub open spec fn clock_text(f: TimeFormat, hour: int, minute: int) -> Seq<char> {
    match f {
        TimeFormat::Hours12 => digits_of(dial_hour(hour) as nat) + ":"@ + two_digits(minute) + (
        if hour < 12 {
            " AM"@
        } else {
            " PM"@
        }),
        TimeFormat::Hours24 => two_digits(hour) + ":"@ + two_digits(minute),
        TimeFormat::Off => "off"@,
    }
}

/// A number below 100 in two places, a space standing for a leading zero.
pub open spec fn space_padded(n: int) -> Seq<char> {
    if n < 10 {
        seq![' ', digit_char(n)]
    } else {
        two_digits(n)
    }
}

/// What chrono writes for a time of day in the two clock formats used here.
pub open spec fn chrono_clock_text(fmt: Seq<char>, hour: int, minute: int) -> Seq<char> {
    if fmt == "%H:%M"@ {
        two_digits(hour) + ":"@ + two_digits(minute)
    } else {
        space_padded(dial_hour(hour)) + ":"@ + two_digits(minute) + (if hour < 12 {
            " AM"@
        } else {
            " PM"@
        })
    }
}

/// Relies on chrono's `NaiveTime::from_hms_opt` (a time for any hour below 24
/// and minute below 60) and `format`: `%H` and `%M` write the hour and the
/// minute zero-padded to two digits, `%l` the twelve-hour dial hour padded
/// with a space, `%p` `AM` or `PM`.
#[verifier::external_body]
fn chrono_clock(hour: u32, minute: u32, fmt: &str) -> (r: String)
    requires
        hour < 24,
        minute < 60,
        fmt@ == "%H:%M"@ || fmt@ == "%l:%M %p"@,
    ensures
        r@ == chrono_clock_text(fmt@, hour as int, minute as int),
{
    chrono::NaiveTime::from_hms_opt(hour, minute, 0).unwrap().format(fmt).to_string()
}

/// The time of day in a format: `3:07 PM`, `15:07`, or `off`.
pub fn time_text(f: TimeFormat, hour: u32, minute: u32) -> (r: String)
    requires
        hour < 24,
        minute < 60,
    ensures
        r@ == clock_text(f, hour as int, minute as int),
{
    match f {
        TimeFormat::Hours12 => {
            proof {
                reveal_strlit("%H:%M");
                reveal_strlit("%l:%M %p");
            }
            let padded = chrono_clock(hour, minute, "%l:%M %p");
            let r = trim_start_char(padded.as_str(), ' ');
            proof {
                let d = dial_hour(hour as int);
                let rest = ":"@ + two_digits(minute as int) + (if hour < 12 {
                    " AM"@
                } else {
                    " PM"@
                });
                assert("%l:%M %p"@.len() != "%H:%M"@.len());
                assert(padded@ =~= space_padded(d) + rest);
                reveal_strlit(":");
                if d < 10 {
                    assert(digits_of(d as nat) =~= seq![digit_char(d)]);
                    assert((space_padded(d) + rest).drop_first() =~= digits_of(d as nat) + rest);
                    assert(trim_start(digits_of(d as nat) + rest, ' ') == digits_of(d as nat) + rest);
                } else {
                    assert(d / 10 == 1);
                    assert(digits_of((d / 10) as nat) == seq![digit_char(d / 10)]);
                    assert(digits_of(d as nat) =~= two_digits(d));
                    assert(trim_start(digits_of(d as nat) + rest, ' ') == digits_of(d as nat) + rest);
                }
                assert(r@ =~= clock_text(f, hour as int, minute as int));
            }
            String::from_str(r)
        },
        TimeFormat::Hours24 => {
            proof {
                reveal_strlit("%H:%M");
                reveal_strlit("%l:%M %p");
            }
            chrono_clock(hour, minute, "%H:%M")
        },
        TimeFormat::Off => lit("off"),
    }
}

/// The clock-face emoji for an hour of the day.
pub open spec fn clock_face(hour: int) -> Seq<char> {
    let h = hour % 12;
    if h == 0 {
        "\u{1f55b}"@
    } else if h == 1 {
        "\u{1f550}"@
    } else if h == 2 {
        "\u{1f551}"@
    } else if h == 3 {
        "\u{1f552}"@
    } else if h == 4 {
        "\u{1f553}"@
    } else if h == 5 {
        "\u{1f554}"@
    } else if h == 6 {
        "\u{1f555}"@
    } else if h == 7 {
        "\u{1f556}"@
    } else if h == 8 {
        "\u{1f557}"@
    } else if h == 9 {
        "\u{1f558}"@
    } else if h == 10 {
        "\u{1f559}"@
    } else {
        "\u{1f55a}"@
    }
}

/// The clock-face emoji for an hour of the day.
pub fn clock_icon(hour: u32) -> (r: String)
    ensures
        r@ == clock_face(hour as int),
{
    let h = hour % 12;
    let s = if h == 0 {
        "\u{1f55b}"
    } else if h == 1 {
        "\u{1f550}"
    } else if h == 2 {
        "\u{1f551}"
    } else if h == 3 {
        "\u{1f552}"
    } else if h == 4 {
        "\u{1f553}"
    } else if h == 5 {
        "\u{1f554}"
    } else if h == 6 {
        "\u{1f555}"
    } else if h == 7 {
        "\u{1f556}"
    } else if h == 8 {
        "\u{1f557}"
    } else if h == 9 {
        "\u{1f558}"
    } else if h == 10 {
        "\u{1f559}"
    } else {
        "\u{1f55a}"
    };
    lit(s)
}

/// The date-and-time row text.
pub open spec fn datetime_text(t: LocalTime, f: TimeFormat) -> Seq<char> {
    "\u{2502} "@ + clock_face(t.hour as int) + " "@ + month_name(t.month as int) + " "@ + digits_of(
        t.day as nat,
    ) + day_suffix(t.day as int) + ", "@ + clock_text(f, t.hour as int, t.minute as int)
}

/// The date-and-time row text, as in `│ 🕒 March 21st, 3:07 PM`.
pub fn get_datetime(t: LocalTime, f: TimeFormat) -> (r: String)
    requires
        t.wf(),
    ensures
        r@ == datetime_text(t, f),
{
    let r = lit("\u{2502} ").concat(clock_icon(t.hour).as_str()).concat(" ").concat(
        chrono_month_name(t.month as u8).as_str(),
    ).concat(" ").concat(ordinal_day(t.day).as_str()).concat(", ").concat(
        time_text(f, t.hour, t.minute).as_str(),
    );
    r
}

} // verus!
