use chrono::Datelike;
use winlux::calendar::CivilDate;
use winlux::model::{err, err_with_source, to_theme_value, AppError, GeocodeResult, SolarSettings, ThemeMode, ThemeState};
use winlux::settings::{
    check_auto_theme_enable, check_external_url, default_solar_settings, resolve_target_date,
    saved_location_for_query, solar_settings_from_stored, stored_flag, stored_theme_value,
    theme_state_from_stored,
};

fn today() -> CivilDate {
    let n = chrono::Local::now().date_naive();
    CivilDate { year: n.year(), month: n.month(), day: n.day() }
}

#[test]
fn blank_date_means_today() {
    let before = today();
    let got = resolve_target_date(Some("")).unwrap();
    let after = today();
    assert!(got == before || got == after);
    let got = resolve_target_date(None).unwrap();
    assert!(got == today() || got == before);
    let got = resolve_target_date(Some("   ")).unwrap();
    assert!(got == today() || got == before);
}

#[test]
fn invalid_month_is_rejected() {
    let e = resolve_target_date(Some("2024-13-01")).unwrap_err();
    assert_eq!(e.code, "errors.date.invalid_format");
    assert!(e.params.iter().any(|(k, v)| k == "format" && v == "YYYY-MM-DD"));
    assert!(e.params.iter().any(|(k, _)| k == "source"));
    assert!(resolve_target_date(Some("2023-02-29")).is_err());
    assert!(resolve_target_date(Some("tomorrow")).is_err());
}

#[test]
fn valid_date_is_parsed() {
    assert_eq!(
        resolve_target_date(Some(" 2024-06-21 ")).unwrap(),
        CivilDate { year: 2024, month: 6, day: 21 }
    );
    assert_eq!(
        resolve_target_date(Some("2024-02-29")).unwrap(),
        CivilDate { year: 2024, month: 2, day: 29 }
    );
}

#[test]
fn stored_settings() {
    let s = solar_settings_from_stored("Oslo".into(), "Oslo, Norway".into(), Some((59_913_900, 10_752_200)), 1);
    assert!(s.auto_theme_enabled);
    let loc = s.location.unwrap();
    assert_eq!(loc.address, "Oslo");
    assert_eq!(loc.longitude_micro, 10_752_200);
    let blank = solar_settings_from_stored("  ".into(), "Oslo".into(), Some((1, 2)), 0);
    assert!(blank.location.is_none());
    assert!(!blank.auto_theme_enabled);
    let unnamed = solar_settings_from_stored("Oslo".into(), "".into(), Some((1, 2)), 7);
    assert!(unnamed.location.is_none());
    assert!(unnamed.auto_theme_enabled);
    let no_coordinates = solar_settings_from_stored("Oslo".into(), "Oslo".into(), None, 0);
    assert!(no_coordinates.location.is_none());
    let d = default_solar_settings();
    assert!(d.location.is_none() && !d.auto_theme_enabled);
}

#[test]
fn stored_theme_flags() {
    assert_eq!(
        theme_state_from_stored(Some(0), None),
        ThemeState { apps: ThemeMode::Dark, system: ThemeMode::Light }
    );
    assert_eq!(
        theme_state_from_stored(Some(5), Some(0)),
        ThemeState { apps: ThemeMode::Light, system: ThemeMode::Dark }
    );
    assert_eq!(stored_theme_value(ThemeMode::Dark), 0);
    assert_eq!(stored_theme_value(ThemeMode::Light), 1);
    assert_eq!(stored_flag(true), 1);
    assert_eq!(stored_flag(false), 0);
    assert_eq!(to_theme_value(ThemeMode::Light), "light");
    assert_eq!(to_theme_value(ThemeMode::Dark), "dark");
}

#[test]
fn enabling_needs_a_location() {
    let none = SolarSettings { location: None, auto_theme_enabled: false };
    assert_eq!(
        check_auto_theme_enable(true, &none).unwrap_err().code,
        "errors.auto_theme.location_required_for_enable"
    );
    assert!(check_auto_theme_enable(false, &none).is_ok());
    let e = saved_location_for_query(none).unwrap_err();
    assert_eq!(e.code, "errors.solar.location_required_for_query");
    let some = SolarSettings {
        location: Some(GeocodeResult {
            address: "Rome".into(),
            display_name: "Roma".into(),
            latitude_micro: 41_900_000,
            longitude_micro: 12_500_000,
        }),
        auto_theme_enabled: false,
    };
    assert!(check_auto_theme_enable(true, &some).is_ok());
    assert_eq!(saved_location_for_query(some).unwrap().display_name, "Roma");
}

#[test]
fn only_web_urls_are_opened() {
    assert_eq!(check_external_url("  https://example.org/a ").unwrap(), "https://example.org/a");
    assert_eq!(check_external_url("http://x").unwrap(), "http://x");
    assert_eq!(
        check_external_url("file:///etc/passwd").unwrap_err().code,
        "errors.url.scheme_not_supported"
    );
    assert!(check_external_url("HTTPS://upper").is_err());
}

#[test]
fn error_parameters() {
    let e = AppError::new("errors.x").with_param("a", "1").with_param("b", "2");
    assert_eq!(e.code, "errors.x");
    assert_eq!(e.params.len(), 2);
    assert_eq!(err("errors.y").params.len(), 0);
    let s = err_with_source("errors.z", "boom");
    assert_eq!(s.params, vec![("source".to_string(), "boom".to_string())]);
}
