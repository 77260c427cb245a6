//! Overlay widgets: which widget a pointer or drag concerns, the weather
//! glyphs, and the clock and calendar text.
use vstd::prelude::*;
use crate::weather::WeatherCondition;
use crate::text::{decimal, digit_char, is_digit, push_decimal};

verus! {

/// The overlay widgets, in the order they take precedence.
#[derive(Debug, Clone, Copy, PartialEq, Eq, Structural)]
pub enum WidgetId {
    Clock,
    Weather,
    Wind,
    Aqi,
}

/// The first widget, in the order clock, weather, wind, air quality, whose
/// flag is set; `None` when no flag is set. This decides which widget a
/// click lands on (flag: enabled and under the cursor) and which widget is
/// being dragged (flag: dragging).
pub fn first_flagged(clock: bool, weather: bool, wind: bool, aqi: bool) -> (r: Option<WidgetId>)
    ensures
        r == (if clock {
            Some(WidgetId::Clock)
        } else if weather {
            Some(WidgetId::Weather)
        } else if wind {
            Some(WidgetId::Wind)
        } else if aqi {
            Some(WidgetId::Aqi)
        } else {
            None
        }),
{
    if clock {
        Some(WidgetId::Clock)
    } else if weather {
        Some(WidgetId::Weather)
    } else if wind {
        Some(WidgetId::Wind)
    } else if aqi {
        Some(WidgetId::Aqi)
    } else {
        None
    }
}

/// The glyph the weather widget shows for a condition.
pub open spec fn condition_glyph(c: WeatherCondition) -> Seq<char> {
    match c {
        WeatherCondition::Clear => "\u{2600}"@,
        WeatherCondition::PartlyCloudy => "\u{26C5}"@,
        WeatherCondition::Cloudy => "\u{2601}"@,
        WeatherCondition::Overcast => "\u{2601}"@,
        WeatherCondition::Fog => "~"@,
        WeatherCondition::Drizzle => "\u{2614}"@,
        WeatherCondition::Rain => "\u{2602}"@,
        WeatherCondition::HeavyRain => "\u{2602}\u{2602}"@,
        WeatherCondition::Thunderstorm => "\u{26A1}"@,
        WeatherCondition::Snow => "\u{2744}"@,
        WeatherCondition::Unknown => "?"@,
    }
}

/// The glyph the weather widget shows for a condition.
pub fn condition_icon_text(cond: WeatherCondition) -> (s: &'static str)
    ensures
        s@ == condition_glyph(cond),
{
    match cond {
        WeatherCondition::Clear => "\u{2600}",
        WeatherCondition::PartlyCloudy => "\u{26C5}",
        WeatherCondition::Cloudy => "\u{2601}",
        WeatherCondition::Overcast => "\u{2601}",
        WeatherCondition::Fog => "~",
        WeatherCondition::Drizzle => "\u{2614}",
        WeatherCondition::Rain => "\u{2602}",
        WeatherCondition::HeavyRain => "\u{2602}\u{2602}",
        WeatherCondition::Thunderstorm => "\u{26A1}",
        WeatherCondition::Snow => "\u{2744}",
        WeatherCondition::Unknown => "?",
    }
}

/// Every condition has a glyph to show.
pub proof fn lemma_every_condition_has_a_glyph(c: WeatherCondition)
    ensures
        condition_glyph(c).len() > 0,
{
    reveal_strlit("\u{2600}");
    reveal_strlit("\u{26C5}");
    reveal_strlit("\u{2601}");
    reveal_strlit("~");
    reveal_strlit("\u{2614}");
    reveal_strlit("\u{2602}");
    reveal_strlit("\u{2602}\u{2602}");
    reveal_strlit("\u{26A1}");
    reveal_strlit("\u{2744}");
    reveal_strlit("?");
}

/// The `strftime` pattern of the clock: 24-hour or 12-hour with AM/PM,
/// with or without seconds.
pub open spec fn clock_pattern_text(use_24h: bool, show_seconds: bool) -> Seq<char> {
    if use_24h {
        if show_seconds {
            "%H:%M:%S"@
        } else {
            "%H:%M"@
        }
    } else {
        if show_seconds {
            "%I:%M:%S %p"@
        } else {
            "%I:%M %p"@
        }
    }
}

/// The `strftime` pattern of the clock.
pub fn clock_pattern(use_24h: bool, show_seconds: bool) -> (p: &'static str)
    ensures
        p@ == clock_pattern_text(use_24h, show_seconds),
{
    match (use_24h, show_seconds) {
        (true, true) => "%H:%M:%S",
        (true, false) => "%H:%M",
        (false, true) => "%I:%M:%S %p",
        (false, false) => "%I:%M %p",
    }
}

/// The `strftime` pattern of the calendar line when it shows the full date.
pub open spec fn full_date_pattern() -> Seq<char> {
    "%a %b %d, %Y"@
}

} // verus!

verus! {

// ─── Clock and calendar text ─────────────────────────────────────────────────

/// The text chrono writes for the `strftime` pattern `pattern` at the
/// instant `secs` seconds and `nanos` nanoseconds after the Unix epoch,
/// seen at `offset_secs` seconds east of UTC.
pub uninterp spec fn strftime_text(pattern: Seq<char>, secs: i64, nanos: u32, offset_secs: i32) -> Seq<char>;

/// The calendar year, at `offset_secs` seconds east of UTC, of the instant
/// `secs` seconds and `nanos` nanoseconds after the Unix epoch.
pub uninterp spec fn local_year(secs: i64, nanos: u32, offset_secs: i32) -> i32;

/// Instants and offsets the clock can show: within about 250,000 years of
/// the epoch, with a sub-second part below one second, and an offset of
/// less than a day.
pub open spec fn instant_in_range(secs: i64, nanos: u32, offset_secs: i32) -> bool {
    &&& -8_000_000_000_000 <= secs <= 8_000_000_000_000
    &&& nanos < 1_000_000_000
    &&& -86_400 < offset_secs < 86_400
}

/// The patterns the widgets format with.
pub open spec fn widget_pattern(p: Seq<char>) -> bool {
    ||| p == clock_pattern_text(true, true)
    ||| p == clock_pattern_text(true, false)
    ||| p == clock_pattern_text(false, true)
    ||| p == clock_pattern_text(false, false)
    ||| p == "%B"@
    ||| p == full_date_pattern()
}

/// `n`, below 100, in two zero-padded digits, as `strftime` writes hours,
/// minutes and seconds.
pub open spec fn two_digits(n: int) -> Seq<char> {
    seq![digit_char((n / 10) as nat), digit_char((n % 10) as nat)]
}

/// Seconds since local midnight of the instant `secs` seconds after the
/// Unix epoch, seen at `offset_secs` seconds east of UTC.
pub open spec fn local_seconds_of_day(secs: i64, offset_secs: i32) -> int {
    (secs + offset_secs) % 86400
}

/// The clock face at an instant: hour (`%H`, 00–23, or `%I`, 01–12),
/// minute and, if shown, second, separated by colons; the 12-hour face
/// ends in a space and `AM` before noon, `PM` from noon on.
pub open spec fn clock_face(use_24h: bool, show_seconds: bool, secs: i64, offset_secs: i32) -> Seq<
    char,
> {
    let t = local_seconds_of_day(secs, offset_secs);
    let h = t / 3600;
    let hour = if use_24h {
        two_digits(h)
    } else if h % 12 == 0 {
        two_digits(12)
    } else {
        two_digits(h % 12)
    };
    let hm = hour + ":"@ + two_digits((t % 3600) / 60);
    let hms = if show_seconds {
        hm + ":"@ + two_digits(t % 60)
    } else {
        hm
    };
    if use_24h {
        hms
    } else if h < 12 {
        hms + " AM"@
    } else {
        hms + " PM"@
    }
}

/// The 24-hour clock never shows a meridiem: at every instant its face is
/// digits and colons only, with a colon after the hour.
pub proof fn lemma_24h_face_is_digits_and_colons(show_seconds: bool, secs: i64, offset_secs: i32)
    ensures
        clock_face(true, show_seconds, secs, offset_secs).len() == (if show_seconds {
            8int
        } else {
            5int
        }),
        clock_face(true, show_seconds, secs, offset_secs)[2] == ':',
        forall|i: int|
            0 <= i < clock_face(true, show_seconds, secs, offset_secs).len() ==> {
                let c = #[trigger] clock_face(true, show_seconds, secs, offset_secs)[i];
                c == ':' || is_digit(c)
            },
{
    reveal_strlit(":");
    let f = clock_face(true, show_seconds, secs, offset_secs);
    let t = local_seconds_of_day(secs, offset_secs);
    let hm = two_digits(t / 3600) + ":"@ + two_digits((t % 3600) / 60);
    assert forall|i: int| 0 <= i < hm.len() implies (hm[i] == ':' || is_digit(hm[i])) by {}
    if show_seconds {
        let hms = hm + ":"@ + two_digits(t % 60);
        assert(f == hms);
        assert forall|i: int| 0 <= i < hms.len() implies (hms[i] == ':' || is_digit(hms[i])) by {
            if i < hm.len() {
                assert(hms[i] == hm[i]);
            }
        }
    } else {
        assert(f == hm);
    }
}

/// `chrono::DateTime::format`, written out with `to_string`, for the instant
/// given by `secs`, `nanos` and `offset_secs` (built with
/// `DateTime::from_timestamp`, `FixedOffset::east_opt` and `with_timezone`).
/// The contract claims that the text depends on nothing but these
/// arguments, and, for the four clock patterns, what `%H`, `%I`, `%M`, `%S`
/// and `%p` are documented to write (in chrono's default locale, and with
/// no leap second, which a sub-second part below one second rules out).
/// The instant's range keeps both constructors from failing, and the fixed
/// set of patterns keeps formatting from failing.
#[verifier::external_body]
fn format_instant(pattern: &str, secs: i64, nanos: u32, offset_secs: i32) -> (s: String)
    requires
        instant_in_range(secs, nanos, offset_secs),
        widget_pattern(pattern@),
    ensures
        s@ == strftime_text(pattern@, secs, nanos, offset_secs),
        pattern@ == clock_pattern_text(true, true) ==> s@ == clock_face(true, true, secs, offset_secs),
        pattern@ == clock_pattern_text(true, false) ==> s@ == clock_face(true, false, secs, offset_secs),
        pattern@ == clock_pattern_text(false, true) ==> s@ == clock_face(false, true, secs, offset_secs),
        pattern@ == clock_pattern_text(false, false) ==> s@ == clock_face(false, false, secs, offset_secs),
{
    let offset = chrono::FixedOffset::east_opt(offset_secs).unwrap();
    let utc = chrono::DateTime::from_timestamp(secs, nanos).unwrap();
    utc.with_timezone(&offset).format(pattern).to_string()
}

/// `chrono::Datelike::year` of the instant given by `secs`, `nanos` and
/// `offset_secs`, built as for `format_instant`. The contract claims only
/// that the year depends on nothing but these arguments.
#[verifier::external_body]
fn year_at(secs: i64, nanos: u32, offset_secs: i32) -> (y: i32)
    requires
        instant_in_range(secs, nanos, offset_secs),
    ensures
        y == local_year(secs, nanos, offset_secs),
{
    let offset = chrono::FixedOffset::east_opt(offset_secs).unwrap();
    let utc = chrono::DateTime::from_timestamp(secs, nanos).unwrap();
    chrono::Datelike::year(&utc.with_timezone(&offset))
}

/// The clock text at an instant: `%H:%M:%S`, `%H:%M`, `%I:%M:%S %p` or
/// `%I:%M %p`, by the 24-hour and seconds settings.
pub fn format_clock(secs: i64, nanos: u32, offset_secs: i32, use_24h: bool, show_seconds: bool) -> (s: String)
    requires
        instant_in_range(secs, nanos, offset_secs),
    ensures
        s@ == clock_face(use_24h, show_seconds, secs, offset_secs),
{
    format_instant(clock_pattern(use_24h, show_seconds), secs, nanos, offset_secs)
}

/// `y` in decimal, with a leading `-` when negative, as `i32`'s `Display`
/// writes it.
pub open spec fn signed_decimal(y: i32) -> Seq<char> {
    if y < 0 {
        "-"@ + decimal((-y) as nat)
    } else {
        decimal(y as nat)
    }
}

/// The month-view calendar line: the month name, a space, and the year.
pub fn month_year_line(month: String, year: i32) -> (s: String)
    ensures
        s@ == month@ + " "@ + signed_decimal(year),
{
    let mut s = month;
    s.append(" ");
    if year < 0 {
        s.append("-");
        let magnitude = (-(year as i64)) as u64;
        push_decimal(&mut s, magnitude);
    } else {
        push_decimal(&mut s, year as u64);
    }
    s
}

/// The calendar text at an instant: the month name and year in month view,
/// otherwise the full date (`%a %b %d, %Y`).
pub fn format_calendar(secs: i64, nanos: u32, offset_secs: i32, month_view: bool) -> (s: String)
    requires
        instant_in_range(secs, nanos, offset_secs),
    ensures
        month_view ==> s@ == strftime_text("%B"@, secs, nanos, offset_secs) + " "@
            + signed_decimal(local_year(secs, nanos, offset_secs)),
        !month_view ==> s@ == strftime_text(full_date_pattern(), secs, nanos, offset_secs),
{
    if month_view {
        let month = format_instant("%B", secs, nanos, offset_secs);
        month_year_line(month, year_at(secs, nanos, offset_secs))
    } else {
        format_instant("%a %b %d, %Y", secs, nanos, offset_secs)
    }
}

} // verus!
