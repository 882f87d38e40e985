//! Settings and theme state as the persistent store holds them, and the checks
//! that commands make on them before acting.

use vstd::prelude::*;
use vstd::string::*;
use crate::calendar::{CivilDate, local_today, parse_ymd, parsed_ymd};
use crate::model::{
    AppError, GeocodeResult, SolarSettings, ThemeMode, ThemeState, err, err_with_source,
};
use crate::text::{starts_with, trim, trimmed};

verus! {

/// Settings when nothing is stored yet.
pub fn default_solar_settings() -> (r: SolarSettings)
    ensures
        r.location is None,
        !r.auto_theme_enabled,
{
    SolarSettings { location: None, auto_theme_enabled: false }
}

/// A stored location is usable when its address and display name are not
/// blank and both coordinates were read.
pub open spec fn stored_location_usable(
    address: Seq<char>,
    display_name: Seq<char>,
    coordinates: Option<(i64, i64)>,
) -> bool {
    trimmed(address).len() > 0 && trimmed(display_name).len() > 0 && coordinates is Some
}

/// Settings from the stored values: the address and display name (empty when
/// absent), the coordinates in millionths of a degree (none when absent or not
/// numbers) and the auto-theme flag (zero when absent).
pub fn solar_settings_from_stored(
    address: String,
    display_name: String,
    coordinates: Option<(i64, i64)>,
    auto_theme_enabled_raw: u32,
) -> (r: SolarSettings)
    ensures
        r.auto_theme_enabled == (auto_theme_enabled_raw != 0),
        r.location is Some <==> stored_location_usable(address@, display_name@, coordinates),
        r.location matches Some(loc) ==> loc.address@ == address@ && loc.display_name@
            == display_name@ && coordinates == Some((loc.latitude_micro, loc.longitude_micro)),
{
    let usable = trim(address.as_str()).unicode_len() > 0 && trim(display_name.as_str()).unicode_len()
        > 0;
    let location = match coordinates {
        Some((latitude_micro, longitude_micro)) if usable => Some(
            GeocodeResult { address, display_name, latitude_micro, longitude_micro },
        ),
        _ => None,
    };
    SolarSettings { location, auto_theme_enabled: auto_theme_enabled_raw != 0 }
}

/// A stored theme flag: zero is dark, anything else light, and an absent one light.
pub open spec fn theme_from_stored(value: Option<u32>) -> ThemeMode {
    match value {
        Some(v) => if v == 0 {
            ThemeMode::Dark
        } else {
            ThemeMode::Light
        },
        None => ThemeMode::Light,
    }
}

/// The theme state from the two stored flags ("apps use light theme" and
/// "system uses light theme").
pub fn theme_state_from_stored(apps: Option<u32>, system: Option<u32>) -> (r: ThemeState)
    ensures
        r.apps == theme_from_stored(apps),
        r.system == theme_from_stored(system),
{
    let apps_value: u32 = match apps {
        Some(v) => v,
        None => 1,
    };
    let system_value: u32 = match system {
        Some(v) => v,
        None => 1,
    };
    ThemeState {
        apps: if apps_value == 0 {
            ThemeMode::Dark
        } else {
            ThemeMode::Light
        },
        system: if system_value == 0 {
            ThemeMode::Dark
        } else {
            ThemeMode::Light
        },
    }
}

/// The stored flag for a theme: one for light, zero for dark.
pub fn stored_theme_value(mode: ThemeMode) -> (r: u32)
    ensures
        r == (if mode == ThemeMode::Dark {
            0u32
        } else {
            1u32
        }),
        theme_from_stored(Some(r)) == mode,
{
    if mode == ThemeMode::Dark {
        0
    } else {
        1
    }
}

/// The stored form of an on/off setting.
pub fn stored_flag(enabled: bool) -> (r: u32)
    ensures
        r == (if enabled {
            1u32
        } else {
            0u32
        }),
{
    if enabled {
        1
    } else {
        0
    }
}

/// Auto-theme can be switched on only once a location is saved.
pub fn check_auto_theme_enable(enabled: bool, settings: &SolarSettings) -> (r: Result<(), AppError>)
    ensures
        r is Err <==> enabled && settings.location is None,
        r matches Err(e) ==> e.code@ == "errors.auto_theme.location_required_for_enable"@,
{
    if enabled && settings.location.is_none() {
        return Err(err("errors.auto_theme.location_required_for_enable"));
    }
    Ok(())
}

/// The saved location, required for a query by saved location.
pub fn saved_location_for_query(settings: SolarSettings) -> (r: Result<GeocodeResult, AppError>)
    ensures
        match r {
            Ok(loc) => settings.location is Some && loc.same_as(&settings.location->0),
            Err(e) => settings.location is None && e.code@
                == "errors.solar.location_required_for_query"@,
        },
{
    match settings.location {
        Some(loc) => Ok(loc),
        None => Err(err("errors.solar.location_required_for_query")),
    }
}

pub open spec fn has_web_scheme(s: Seq<char>) -> bool {
    ||| ("https://"@.len() <= s.len() && s.subrange(0, "https://"@.len() as int) == "https://"@)
    ||| ("http://"@.len() <= s.len() && s.subrange(0, "http://"@.len() as int) == "http://"@)
}

/// The trimmed URL, if it is a web address that may be handed to the browser.
pub fn check_external_url(url: &str) -> (r: Result<&str, AppError>)
    ensures
        match r {
            Ok(t) => t@ == trimmed(url@) && has_web_scheme(t@),
            Err(e) => !has_web_scheme(trimmed(url@)) && e.code@
                == "errors.url.scheme_not_supported"@,
        },
{
    let t = trim(url);
    if !(starts_with(t, "https://") || starts_with(t, "http://")) {
        return Err(err("errors.url.scheme_not_supported"));
    }
    Ok(t)
}

/// The day a query is about: a `YYYY-MM-DD` text, or today when the text is
/// absent or blank.
pub fn resolve_target_date(date: Option<&str>) -> (r: Result<CivilDate, AppError>)
    ensures
        date is Some && trimmed(date->0@).len() > 0 ==> match r {
            Ok(d) => d.wf() && parsed_ymd(trimmed(date->0@)) == Some(
                (d.year as int, d.month as int, d.day as int),
            ),
            Err(e) => parsed_ymd(trimmed(date->0@)) is None && e.code@
                == "errors.date.invalid_format"@ && e.param_view().contains_key("source"@)
                && e.param_view()["format"@] == "YYYY-MM-DD"@,
        },
        !(date is Some && trimmed(date->0@).len() > 0) ==> r is Ok && r->Ok_0.wf(),
{
    if let Some(value) = date {
        let t = trim(value);
        if t.unicode_len() > 0 {
            return match parse_ymd(t) {
                Ok(d) => Ok(d),
                Err(source) => {
                    let e = err_with_source("errors.date.invalid_format", source.as_str())
                        .with_param("format", "YYYY-MM-DD");
                    Err(e)
                },
            };
        }
    }
    Ok(local_today())
}

} // verus!
