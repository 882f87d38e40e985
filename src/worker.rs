//! Decisions of the auto-theme worker: what one tick does and how long the
//! worker sleeps afterwards. The host runs the loop, reads the stores and the
//! clock, performs the writes and sleeps.

use vstd::prelude::*;
use crate::model::{AppError, GeocodeResult, SolarSettings, SunTimesResult, ThemeMode, ThemeState};

verus! {

/// Sleep after a tick while auto-theme is off, in seconds.
pub const AUTO_THEME_IDLE_CHECK_SECS: u64 = 600;

/// Sleep after a failed tick, in seconds.
pub const AUTO_THEME_ERROR_RETRY_SECS: u64 = 60;

/// Shortest sleep after a successful tick, in seconds.
pub const AUTO_THEME_MIN_RECHECK_SECS: u64 = 1;

/// What a tick does once the settings are read.
#[derive(Debug)]
pub enum TickPlan {
    /// Auto-theme is off: sleep this long and check again.
    Idle { wait_secs: u64 },
    /// Resolve today's sun times at this place.
    Resolve(GeocodeResult),
}

/// The theme a tick writes, if any, and how long the worker sleeps after it.
#[derive(Debug)]
pub struct TickDecision {
    pub write: Option<ThemeState>,
    pub wait_secs: u64,
}

/// Both theme flags set to the recommended theme.
pub open spec fn desired_state(recommended: ThemeMode) -> ThemeState {
    ThemeState { apps: recommended, system: recommended }
}

/// The write a tick performs: the desired state, unless the current one already is it.
pub open spec fn theme_write(recommended: ThemeMode, current: ThemeState) -> Option<ThemeState> {
    if current == desired_state(recommended) {
        None
    } else {
        Some(desired_state(recommended))
    }
}

/// Sleep until one second past the next transition, at least the minimum re-check.
pub open spec fn wait_until_transition(seconds_until: int) -> int {
    let s = if seconds_until < 0 {
        0
    } else {
        seconds_until
    };
    let w = if s + 1 > u64::MAX {
        u64::MAX as int
    } else {
        s + 1
    };
    if w < AUTO_THEME_MIN_RECHECK_SECS {
        AUTO_THEME_MIN_RECHECK_SECS as int
    } else {
        w
    }
}

/// The first step of a tick: idle while auto-theme is off; with it on, a saved
/// location is required.
pub fn plan_auto_theme_tick(settings: &SolarSettings) -> (r: Result<TickPlan, AppError>)
    ensures
        match r {
            Ok(TickPlan::Idle { wait_secs }) => !settings.auto_theme_enabled && wait_secs
                == AUTO_THEME_IDLE_CHECK_SECS,
            Ok(TickPlan::Resolve(loc)) => settings.auto_theme_enabled && settings.location is Some
                && loc.same_as(&settings.location->0),
            Err(e) => settings.auto_theme_enabled && settings.location is None && e.code@
                == "errors.auto_theme.location_not_saved"@,
        },
{
    if !settings.auto_theme_enabled {
        return Ok(TickPlan::Idle { wait_secs: AUTO_THEME_IDLE_CHECK_SECS });
    }
    match &settings.location {
        Some(location) => Ok(TickPlan::Resolve(location.duplicate())),
        None => Err(AppError::new("errors.auto_theme.location_not_saved")),
    }
}

/// The second step of a tick: given today's sun times and the theme the system
/// has now, the write to perform and the sleep that wakes the worker just after
/// the next sunrise or sunset.
pub fn decide_auto_theme_tick(sun: &SunTimesResult, current: ThemeState) -> (r: TickDecision)
    ensures
        r.write == theme_write(sun.recommended_theme, current),
        r.wait_secs == wait_until_transition(sun.seconds_until_next_transition as int),
        r.wait_secs >= AUTO_THEME_MIN_RECHECK_SECS,
{
    let desired = ThemeState { apps: sun.recommended_theme, system: sun.recommended_theme };
    let write = if current == desired {
        None
    } else {
        Some(desired)
    };
    let seconds_until: u64 = if sun.seconds_until_next_transition < 0 {
        0
    } else {
        sun.seconds_until_next_transition as u64
    };
    let wait = seconds_until.saturating_add(1);
    let wait_secs = if wait < AUTO_THEME_MIN_RECHECK_SECS {
        AUTO_THEME_MIN_RECHECK_SECS
    } else {
        wait
    };
    TickDecision { write, wait_secs }
}

/// The sleep after a tick: the tick's own on success, the error-retry interval on failure.
pub fn wait_after_tick(outcome: &Result<u64, AppError>) -> (r: u64)
    ensures
        r == match outcome {
            Ok(w) => *w,
            Err(_) => AUTO_THEME_ERROR_RETRY_SECS,
        },
{
    match outcome {
        Ok(w) => *w,
        Err(_) => AUTO_THEME_ERROR_RETRY_SECS,
    }
}

/// Two ticks in a row with the same recommendation write at most once: once
/// the first tick's write (if any) is in place, the second finds nothing to do.
pub proof fn lemma_tick_idempotent(recommended: ThemeMode, current: ThemeState)
    ensures
        ({
            let after = match theme_write(recommended, current) {
                Some(w) => w,
                None => current,
            };
            theme_write(recommended, after) is None
        }),
{
}

} // verus!
