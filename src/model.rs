//! The library's data: errors, theme state, settings and solar results.

use vstd::prelude::*;
use vstd::string::*;
use crate::calendar::CivilDate;

verus! {

/// An error with a machine-readable code and named parameters for display.
#[derive(Debug)]
pub struct AppError {
    pub code: String,
    /// Parameters in the order they were added; a later entry for a key
    /// replaces an earlier one.
    pub params: Vec<(String, String)>,
}

/// The parameters of `ps` as a map, later entries winning.
pub open spec fn params_map(ps: Seq<(String, String)>) -> Map<Seq<char>, Seq<char>>
    decreases ps.len(),
{
    if ps.len() == 0 {
        Map::empty()
    } else {
        params_map(ps.drop_last()).insert(ps.last().0@, ps.last().1@)
    }
}

impl AppError {
    pub open spec fn param_view(&self) -> Map<Seq<char>, Seq<char>> {
        params_map(self.params@)
    }

    pub fn new(code: &str) -> (r: AppError)
        ensures
            r.code@ == code@,
            r.param_view() == Map::<Seq<char>, Seq<char>>::empty(),
    {
        AppError { code: String::from_str(code), params: Vec::new() }
    }

    pub fn with_param(self, key: &str, value: &str) -> (r: AppError)
        ensures
            r.code@ == self.code@,
            r.param_view() == self.param_view().insert(key@, value@),
    {
        let mut params = self.params;
        let ghost before = params@;
        params.push((String::from_str(key), String::from_str(value)));
        assert(params@.drop_last() =~= before);
        AppError { code: self.code, params }
    }
}

/// An error with a code and no parameters.
pub fn err(code: &str) -> (r: AppError)
    ensures
        r.code@ == code@,
        r.param_view() == Map::<Seq<char>, Seq<char>>::empty(),
{
    AppError::new(code)
}

/// An error with a code and the text of the failure that caused it.
pub fn err_with_source(code: &str, source: &str) -> (r: AppError)
    ensures
        r.code@ == code@,
        r.param_view() == map!["source"@ => source@],
{
    let e = AppError::new(code).with_param("source", source);
    assert(e.param_view() =~= map!["source"@ => source@]);
    e
}

#[derive(Clone, Copy, Debug, PartialEq, Eq, Structural)]
pub enum ThemeMode {
    Light,
    Dark,
}

/// The two independently settable theme flags of the operating system.
#[derive(Clone, Copy, Debug, PartialEq, Eq, Structural)]
pub struct ThemeState {
    pub apps: ThemeMode,
    pub system: ThemeMode,
}

#[derive(Debug)]
pub struct LanguageSettings {
    pub preference: String,
    pub resolved: String,
    pub available: Vec<String>,
}

#[derive(Clone, Copy, Debug, PartialEq, Eq, Structural)]
pub struct StartupState {
    pub enabled: bool,
}

/// A resolved place. Coordinates are in millionths of a degree.
#[derive(Debug)]
pub struct GeocodeResult {
    pub address: String,
    pub display_name: String,
    pub latitude_micro: i64,
    pub longitude_micro: i64,
}

impl GeocodeResult {
    /// The same place, field by field.
    pub open spec fn same_as(&self, o: &GeocodeResult) -> bool {
        &&& self.address@ == o.address@
        &&& self.display_name@ == o.display_name@
        &&& self.latitude_micro == o.latitude_micro
        &&& self.longitude_micro == o.longitude_micro
    }

    pub fn duplicate(&self) -> (r: GeocodeResult)
        ensures
            r.same_as(self),
    {
        GeocodeResult {
            address: self.address.clone(),
            display_name: self.display_name.clone(),
            latitude_micro: self.latitude_micro,
            longitude_micro: self.longitude_micro,
        }
    }
}

/// The saved location and whether the theme follows the sun.
#[derive(Debug)]
pub struct SolarSettings {
    pub location: Option<GeocodeResult>,
    pub auto_theme_enabled: bool,
}

/// Sunrise and sunset of one day at one place, and what they mean at a given instant.
#[derive(Debug)]
pub struct SunTimesResult {
    pub address: String,
    pub display_name: String,
    pub latitude_micro: i64,
    pub longitude_micro: i64,
    pub date: String,
    pub sunrise_utc: String,
    pub sunset_utc: String,
    pub sunrise_local: String,
    pub sunset_local: String,
    pub sunrise_unix: i64,
    pub sunset_unix: i64,
    pub day_length_seconds: i64,
    pub day_length_hms: String,
    pub is_daylight: bool,
    pub recommended_theme: ThemeMode,
    pub next_transition: String,
    pub next_transition_local: String,
    pub next_transition_utc: String,
    pub next_transition_unix: i64,
    /// The calendar day whose sunrise or sunset is the next transition.
    pub next_transition_date: CivilDate,
    pub seconds_until_next_transition: i64,
}

pub open spec fn theme_value(mode: ThemeMode) -> Seq<char> {
    match mode {
        ThemeMode::Light => "light"@,
        ThemeMode::Dark => "dark"@,
    }
}

/// The name of a theme as the user interface spells it.
pub fn to_theme_value(mode: ThemeMode) -> (r: &'static str)
    ensures
        r@ == theme_value(mode),
{
    match mode {
        ThemeMode::Light => "light",
        ThemeMode::Dark => "dark",
    }
}

} // verus!
