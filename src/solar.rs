//! Sunrise and sunset of a day, classified against the current instant.

use vstd::prelude::*;
use vstd::string::*;
use crate::calendar::{
    CivilDate, date_before, date_text, lemma_successor_after, local_timestamp_text, next_day,
    successor, timestamp_in_range, utc_text, utc_timestamp_text, ymd_text,
};
use crate::model::{AppError, GeocodeResult, SunTimesResult, ThemeMode};

verus! {

pub open spec fn digit_char(d: int) -> char {
    (48 + d) as char
}

/// Decimal digits of `n`, without leading zeros.
pub open spec fn decimal(n: nat) -> Seq<char>
    decreases n,
{
    if n < 10 {
        seq![digit_char(n as int)]
    } else {
        decimal(n / 10).push(digit_char((n % 10) as int))
    }
}

/// Decimal digits of `n`, at least two of them.
pub open spec fn two_digits(n: nat) -> Seq<char> {
    if n < 10 {
        seq!['0'] + decimal(n)
    } else {
        decimal(n)
    }
}

/// `HH:MM:SS` for a number of seconds; a negative count reads as zero.
pub open spec fn hms_text(total: int) -> Seq<char> {
    let t = if total < 0 {
        0
    } else {
        total
    };
    two_digits((t / 3600) as nat) + seq![':'] + two_digits(((t % 3600) / 60) as nat) + seq![':']
        + two_digits((t % 60) as nat)
}

fn digit_str(d: u64) -> (r: &'static str)
    requires
        d < 10,
    ensures
        r@ == seq![digit_char(d as int)],
{
    proof {
        reveal_strlit("0");
        reveal_strlit("1");
        reveal_strlit("2");
        reveal_strlit("3");
        reveal_strlit("4");
        reveal_strlit("5");
        reveal_strlit("6");
        reveal_strlit("7");
        reveal_strlit("8");
        reveal_strlit("9");
    }
    let r = if d == 0 {
        "0"
    } else if d == 1 {
        "1"
    } else if d == 2 {
        "2"
    } else if d == 3 {
        "3"
    } else if d == 4 {
        "4"
    } else if d == 5 {
        "5"
    } else if d == 6 {
        "6"
    } else if d == 7 {
        "7"
    } else if d == 8 {
        "8"
    } else {
        "9"
    };
    assert(r@ =~= seq![digit_char(d as int)]);
    r
}

fn decimal_string(n: u64) -> (r: String)
    ensures
        r@ == decimal(n as nat),
    decreases n,
{
    if n < 10 {
        String::from_str(digit_str(n))
    } else {
        let mut s = decimal_string(n / 10);
        s.append(digit_str(n % 10));
        s
    }
}

fn two_digit_string(n: u64) -> (r: String)
    ensures
        r@ == two_digits(n as nat),
{
    if n < 10 {
        proof {
            reveal_strlit("0");
        }
        let s = String::from_str("0");
        s.concat(decimal_string(n).as_str())
    } else {
        decimal_string(n)
    }
}

/// A number of seconds as hours, minutes and seconds, `HH:MM:SS`.
pub fn format_hms(total_seconds: i64) -> (r: String)
    ensures
        r@ == hms_text(total_seconds as int),
{
    proof {
        reveal_strlit(":");
    }
    let total: u64 = if total_seconds < 0 {
        0
    } else {
        total_seconds as u64
    };
    let hours = total / 3600;
    let minutes = (total % 3600) / 60;
    let seconds = total % 60;
    let s = two_digit_string(hours);
    let s = s.concat(":");
    let s = s.concat(two_digit_string(minutes).as_str());
    let s = s.concat(":");
    let s = s.concat(two_digit_string(seconds).as_str());
    s
}

/// Seconds from sunrise to sunset; none when sunset does not come after sunrise.
pub open spec fn day_length(sunrise: int, sunset: int) -> int {
    if sunset > sunrise {
        sunset - sunrise
    } else {
        0
    }
}

/// Daylight is the half-open span from sunrise to sunset: sunset itself is night.
pub open spec fn is_daylight_at(now: int, sunrise: int, sunset: int) -> bool {
    sunrise <= now && now < sunset
}

pub open spec fn theme_for_daylight(daylight: bool) -> ThemeMode {
    if daylight {
        ThemeMode::Light
    } else {
        ThemeMode::Dark
    }
}

/// Past both of today's events, the next transition is the following day's sunrise.
pub open spec fn needs_next_day(now: int, sunrise: int, sunset: int) -> bool {
    now >= sunrise && now >= sunset
}

/// Every day that the calculator is asked about yields instants on chrono's calendar.
pub open spec fn calculator_in_range<F: Fn(CivilDate) -> (i64, i64)>(calculator: F) -> bool {
    forall|d: CivilDate, p: (i64, i64)|
        d.wf() && #[trigger] calculator.ensures((d,), p) ==> timestamp_in_range(p.0 as int)
            && timestamp_in_range(p.1 as int)
}

/// What the result says of the next transition, given the instants it rests on.
pub open spec fn next_transition_ok<F: Fn(CivilDate) -> (i64, i64)>(
    calculator: F,
    local_date: CivilDate,
    now: int,
    res: SunTimesResult,
) -> bool {
    let rise = res.sunrise_unix as int;
    let set = res.sunset_unix as int;
    let next = res.next_transition_unix as int;
    &&& if now < rise {
        &&& res.next_transition@ == "sunrise"@
        &&& next == rise
        &&& res.next_transition_date == local_date
    } else if now < set {
        &&& res.next_transition@ == "sunset"@
        &&& next == set
        &&& res.next_transition_date == local_date
    } else {
        &&& res.next_transition@ == "sunrise"@
        &&& successor(local_date) == Some(res.next_transition_date)
        &&& date_before(local_date, res.next_transition_date)
        &&& exists|s: i64|
            calculator.ensures((res.next_transition_date,), (res.next_transition_unix, s))
    }
    &&& timestamp_in_range(next)
    &&& res.next_transition_utc@ == utc_text(next)
    &&& res.seconds_until_next_transition == (if next > now {
        next - now
    } else {
        0
    })
}

/// Sunrise and sunset at `geocode` on `local_date`, classified against the
/// instant `now_unix`. `calculator` gives the Unix times of sunrise and sunset
/// of a day at this place; it is asked about `local_date`, and about the day
/// after when `now_unix` is past both of that day's events.
pub fn build_sun_times_result<F: Fn(CivilDate) -> (i64, i64)>(
    geocode: GeocodeResult,
    local_date: CivilDate,
    now_unix: i64,
    calculator: F,
) -> (r: Result<SunTimesResult, AppError>)
    requires
        local_date.wf(),
        timestamp_in_range(now_unix as int),
        forall|d: CivilDate| d.wf() ==> #[trigger] calculator.requires((d,)),
    ensures
        calculator_in_range(calculator) && successor(local_date) is Some ==> r is Ok,
        match r {
            Ok(res) => {
                let rise = res.sunrise_unix as int;
                let set = res.sunset_unix as int;
                &&& calculator.ensures((local_date,), (res.sunrise_unix, res.sunset_unix))
                &&& timestamp_in_range(rise) && timestamp_in_range(set)
                &&& res.address@ == geocode.address@
                &&& res.display_name@ == geocode.display_name@
                &&& res.latitude_micro == geocode.latitude_micro
                &&& res.longitude_micro == geocode.longitude_micro
                &&& res.date@ == ymd_text(
                    local_date.year as int,
                    local_date.month as int,
                    local_date.day as int,
                )
                &&& res.sunrise_utc@ == utc_text(rise)
                &&& res.sunset_utc@ == utc_text(set)
                &&& res.day_length_seconds == day_length(rise, set)
                &&& res.day_length_seconds >= 0
                &&& res.day_length_hms@ == hms_text(res.day_length_seconds as int)
                &&& res.is_daylight == is_daylight_at(now_unix as int, rise, set)
                &&& now_unix == set ==> !res.is_daylight
                &&& res.recommended_theme == theme_for_daylight(res.is_daylight)
                &&& next_transition_ok(calculator, local_date, now_unix as int, res)
                &&& now_unix >= set && rise <= set ==> res.next_transition@ == "sunrise"@
                    && date_before(local_date, res.next_transition_date)
            },
            Err(e) => {
                ||| e.code@ == "errors.sun_times.sunrise_generation_failed"@ && exists|
                    p: (i64, i64),
                | calculator.ensures((local_date,), p) && !timestamp_in_range(p.0 as int)
                ||| e.code@ == "errors.sun_times.sunset_generation_failed"@ && exists|
                    p: (i64, i64),
                | calculator.ensures((local_date,), p) && !timestamp_in_range(p.1 as int)
                ||| e.code@ == "errors.date.calculation_failed"@ && successor(local_date) is None
                ||| e.code@ == "errors.sun_times.next_sunrise_generation_failed"@ && exists|
                    p: (i64, i64),
                | calculator.ensures((successor(local_date)->0,), p) && !timestamp_in_range(
                    p.0 as int,
                )
            },
        },
{
    let (sunrise_ts, sunset_ts) = calculator(local_date);
    let sunrise_utc = match utc_timestamp_text(sunrise_ts) {
        Some(s) => s,
        None => {
            return Err(AppError::new("errors.sun_times.sunrise_generation_failed"));
        },
    };
    let sunset_utc = match utc_timestamp_text(sunset_ts) {
        Some(s) => s,
        None => {
            return Err(AppError::new("errors.sun_times.sunset_generation_failed"));
        },
    };
    let sunrise_local = local_timestamp_text(sunrise_ts);
    let sunset_local = local_timestamp_text(sunset_ts);
    let day_length_seconds: i64 = if sunset_ts > sunrise_ts {
        sunset_ts - sunrise_ts
    } else {
        0
    };
    let day_length_hms = format_hms(day_length_seconds);

    let is_daylight = now_unix >= sunrise_ts && now_unix < sunset_ts;
    let recommended_theme = if is_daylight {
        ThemeMode::Light
    } else {
        ThemeMode::Dark
    };

    let ghost mut next_sunset: i64 = 0;
    let (next_transition, next_ts, next_utc, next_date) = if now_unix < sunrise_ts {
        ("sunrise", sunrise_ts, sunrise_utc.clone(), local_date)
    } else if now_unix < sunset_ts {
        ("sunset", sunset_ts, sunset_utc.clone(), local_date)
    } else {
        let next_date = match next_day(local_date) {
            Some(d) => d,
            None => {
                return Err(AppError::new("errors.date.calculation_failed"));
            },
        };
        proof {
            lemma_successor_after(local_date);
        }
        let (next_sunrise_ts, next_sunset_ts) = calculator(next_date);
        proof {
            next_sunset = next_sunset_ts;
        }
        let next_sunrise_utc = match utc_timestamp_text(next_sunrise_ts) {
            Some(s) => s,
            None => {
                return Err(AppError::new("errors.sun_times.next_sunrise_generation_failed"));
            },
        };
        ("sunrise", next_sunrise_ts, next_sunrise_utc, next_date)
    };
    let next_transition_local = local_timestamp_text(next_ts);
    let seconds_until_next_transition: i64 = if next_ts > now_unix {
        next_ts - now_unix
    } else {
        0
    };

    let res = SunTimesResult {
        address: geocode.address,
        display_name: geocode.display_name,
        latitude_micro: geocode.latitude_micro,
        longitude_micro: geocode.longitude_micro,
        date: date_text(local_date),
        sunrise_utc,
        sunset_utc,
        sunrise_local,
        sunset_local,
        sunrise_unix: sunrise_ts,
        sunset_unix: sunset_ts,
        day_length_seconds,
        day_length_hms,
        is_daylight,
        recommended_theme,
        next_transition: String::from_str(next_transition),
        next_transition_local,
        next_transition_utc: next_utc,
        next_transition_unix: next_ts,
        next_transition_date: next_date,
        seconds_until_next_transition,
    };
    proof {
        reveal_strlit("sunrise");
        reveal_strlit("sunset");
        if needs_next_day(now_unix as int, sunrise_ts as int, sunset_ts as int) {
            assert(calculator.ensures((next_date,), (next_ts, next_sunset)));
        }
        assert(next_transition_ok(calculator, local_date, now_unix as int, res));
    }
    Ok(res)
}

} // verus!
