use winlux::calendar::{CivilDate, MAX_TIMESTAMP, MIN_TIMESTAMP};
use winlux::model::{GeocodeResult, ThemeMode};
use winlux::solar::{build_sun_times_result, format_hms};

fn london() -> GeocodeResult {
    GeocodeResult {
        address: "London".to_string(),
        display_name: "London, Greater London, England".to_string(),
        latitude_micro: 51_500_000,
        longitude_micro: -120_000,
    }
}

fn date(year: i32, month: u32, day: u32) -> CivilDate {
    CivilDate { year, month, day }
}

#[allow(deprecated)]
fn london_calculator(d: CivilDate) -> (i64, i64) {
    sunrise::sunrise_sunset(51.5, -0.12, d.year, d.month, d.day)
}

/// A calculator with fixed answers: the day's number of days since the first
/// of June 2024 shifts both events by a day.
fn fixed_calculator(d: CivilDate) -> (i64, i64) {
    let offset = (d.day as i64 - 1) * 86_400 + (d.month as i64 - 6) * 30 * 86_400;
    (1_000 + offset, 5_000 + offset)
}

#[test]
fn london_midsummer_is_daylight_at_noon() {
    // Noon in London, which keeps UTC+1 in June.
    let noon = 1_718_967_600;
    let res = build_sun_times_result(london(), date(2024, 6, 21), noon, london_calculator).unwrap();
    assert!(res.sunrise_unix >= 1_718_928_000 && res.sunrise_unix < 1_719_014_400);
    assert!(res.sunset_unix >= 1_718_928_000 && res.sunset_unix < 1_719_014_400);
    assert!(res.sunrise_unix < res.sunset_unix);
    assert!(res.is_daylight);
    assert_eq!(res.recommended_theme, ThemeMode::Light);
    assert_eq!(res.next_transition, "sunset");
    assert_eq!(res.date, "2024-06-21");
    assert_eq!(res.address, "London");
    assert_eq!(res.seconds_until_next_transition, res.sunset_unix - noon);
    assert!(res.sunrise_utc.starts_with("2024-06-21 "));
    assert!(res.sunrise_utc.ends_with(" +00:00"));
}

#[test]
fn day_length_is_never_negative() {
    let inverted = |_d: CivilDate| (9_000i64, 2_000i64);
    let res = build_sun_times_result(london(), date(2024, 6, 1), 100, inverted).unwrap();
    assert_eq!(res.day_length_seconds, 0);
    assert_eq!(res.day_length_hms, "00:00:00");
    let res = build_sun_times_result(london(), date(2024, 6, 1), 100, fixed_calculator).unwrap();
    assert_eq!(res.day_length_seconds, 4_000);
    assert_eq!(res.day_length_hms, "01:06:40");
}

#[test]
fn daylight_is_half_open() {
    let at_sunrise = build_sun_times_result(london(), date(2024, 6, 1), 1_000, fixed_calculator).unwrap();
    assert!(at_sunrise.is_daylight);
    assert_eq!(at_sunrise.recommended_theme, ThemeMode::Light);
    let before_sunset = build_sun_times_result(london(), date(2024, 6, 1), 4_999, fixed_calculator).unwrap();
    assert!(before_sunset.is_daylight);
    let at_sunset = build_sun_times_result(london(), date(2024, 6, 1), 5_000, fixed_calculator).unwrap();
    assert!(!at_sunset.is_daylight);
    assert_eq!(at_sunset.recommended_theme, ThemeMode::Dark);
    let before_sunrise = build_sun_times_result(london(), date(2024, 6, 1), 999, fixed_calculator).unwrap();
    assert!(!before_sunrise.is_daylight);
    assert_eq!(before_sunrise.next_transition, "sunrise");
    assert_eq!(before_sunrise.next_transition_unix, 1_000);
    assert_eq!(before_sunrise.seconds_until_next_transition, 1);
    assert_eq!(before_sunrise.next_transition_date, date(2024, 6, 1));
}

#[test]
fn after_sunset_the_next_transition_is_tomorrows_sunrise() {
    let res = build_sun_times_result(london(), date(2024, 6, 1), 6_000, fixed_calculator).unwrap();
    assert_eq!(res.next_transition, "sunrise");
    assert_eq!(res.next_transition_date, date(2024, 6, 2));
    assert_eq!(res.next_transition_unix, 1_000 + 86_400);
    assert_eq!(res.seconds_until_next_transition, 1_000 + 86_400 - 6_000);
    assert_eq!(res.next_transition_utc, "1970-01-02 00:16:40 +00:00");
    let end_of_month = build_sun_times_result(london(), date(2024, 6, 30), 10_000_000, fixed_calculator).unwrap();
    assert_eq!(end_of_month.next_transition_date, date(2024, 7, 1));
}

#[test]
fn utc_text_of_the_epoch() {
    let epoch = |_d: CivilDate| (0i64, 3_600i64);
    let res = build_sun_times_result(london(), date(1970, 1, 1), 10, epoch).unwrap();
    assert_eq!(res.sunrise_utc, "1970-01-01 00:00:00 +00:00");
    assert_eq!(res.sunset_utc, "1970-01-01 01:00:00 +00:00");
    assert_eq!(res.date, "1970-01-01");
    assert_eq!(res.next_transition, "sunset");
}

#[test]
fn unrepresentable_instants_fail() {
    let bad_sunrise = |_d: CivilDate| (i64::MAX, 0i64);
    let e = build_sun_times_result(london(), date(2024, 6, 1), 0, bad_sunrise).unwrap_err();
    assert_eq!(e.code, "errors.sun_times.sunrise_generation_failed");
    let bad_sunset = |_d: CivilDate| (0i64, i64::MIN);
    let e = build_sun_times_result(london(), date(2024, 6, 1), 0, bad_sunset).unwrap_err();
    assert_eq!(e.code, "errors.sun_times.sunset_generation_failed");
    let bad_tomorrow = |d: CivilDate| if d.day == 1 { (0i64, 10i64) } else { (i64::MAX, 0i64) };
    let e = build_sun_times_result(london(), date(2024, 6, 1), 20, bad_tomorrow).unwrap_err();
    assert_eq!(e.code, "errors.sun_times.next_sunrise_generation_failed");
}

#[test]
fn no_day_after_the_last_date() {
    let last = date(262142, 12, 31);
    let flat = |_d: CivilDate| (0i64, 10i64);
    let e = build_sun_times_result(london(), last, 20, flat).unwrap_err();
    assert_eq!(e.code, "errors.date.calculation_failed");
}

fn day_after(d: CivilDate) -> CivilDate {
    let flat = |_d: CivilDate| (0i64, 10i64);
    build_sun_times_result(london(), d, 20, flat).unwrap().next_transition_date
}

#[test]
fn next_day_crosses_months_and_years() {
    assert_eq!(day_after(date(2024, 2, 28)), date(2024, 2, 29));
    assert_eq!(day_after(date(2023, 2, 28)), date(2023, 3, 1));
    assert_eq!(day_after(date(2024, 12, 31)), date(2025, 1, 1));
    assert_eq!(day_after(date(-1, 12, 31)), date(0, 1, 1));
}

#[test]
fn hms_formatting() {
    assert_eq!(format_hms(0), "00:00:00");
    assert_eq!(format_hms(3_661), "01:01:01");
    assert_eq!(format_hms(59), "00:00:59");
    assert_eq!(format_hms(-5), "00:00:00");
    assert_eq!(format_hms(360_000), "100:00:00");
    assert_eq!(format_hms(16 * 3_600 + 38 * 60 + 27), "16:38:27");
}

#[test]
fn instants_at_the_edges_of_the_calendar() {
    let edges = |_d: CivilDate| (MIN_TIMESTAMP, MAX_TIMESTAMP);
    let res = build_sun_times_result(london(), date(2024, 6, 1), 0, edges).unwrap();
    assert_eq!(res.sunrise_utc, "-262143-01-01 00:00:00 +00:00");
    assert_eq!(res.sunset_utc, "+262142-12-31 23:59:59 +00:00");
    let below = |_d: CivilDate| (MIN_TIMESTAMP - 1, 0i64);
    let e = build_sun_times_result(london(), date(2024, 6, 1), 0, below).unwrap_err();
    assert_eq!(e.code, "errors.sun_times.sunrise_generation_failed");
    let above = |_d: CivilDate| (0i64, MAX_TIMESTAMP + 1);
    let e = build_sun_times_result(london(), date(2024, 6, 1), 0, above).unwrap_err();
    assert_eq!(e.code, "errors.sun_times.sunset_generation_failed");
}
