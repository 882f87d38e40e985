//! The main window's lifecycle: a hidden window is destroyed after a delay
//! unless it was opened or hidden again meanwhile.

use vstd::prelude::*;
use vstd::string::*;
use crate::model::{ThemeMode, theme_value, to_theme_value};

verus! {

/// How long a hidden main window lives before it is destroyed, in seconds.
pub const DESTROY_AFTER_CLOSE_SECS: u64 = 180;

/// Counts opening and hiding of the main window; a scheduled destruction goes
/// ahead only if nothing happened since it was scheduled.
#[derive(Debug)]
pub struct WindowLifecycle {
    pub version: u64,
}

pub open spec fn following_version(v: u64) -> u64 {
    if v == u64::MAX {
        0
    } else {
        (v + 1) as u64
    }
}

impl WindowLifecycle {
    pub fn new() -> (r: WindowLifecycle)
        ensures
            r.version == 0,
    {
        WindowLifecycle { version: 0 }
    }

    /// Marks an opening or hiding of the window and returns its number.
    pub fn next_lifecycle_version(&mut self) -> (r: u64)
        ensures
            final(self).version == following_version(old(self).version),
            r == final(self).version,
    {
        self.version = self.version.wrapping_add(1);
        self.version
    }

    /// Whether a destruction scheduled as `scheduled` may still go ahead.
    pub fn is_current(&self, scheduled: u64) -> (r: bool)
        ensures
            r == (self.version == scheduled),
    {
        self.version == scheduled
    }
}

/// The script that sets the page's theme attribute.
pub open spec fn theme_script_of(mode: ThemeMode) -> Seq<char> {
    "document.documentElement.setAttribute('data-theme', '"@ + theme_value(mode) + "');"@
}

pub fn theme_script(mode: ThemeMode) -> (r: String)
    ensures
        r@ == theme_script_of(mode),
{
    let s = String::from_str("document.documentElement.setAttribute('data-theme', '");
    let s = s.concat(to_theme_value(mode));
    s.concat("');")
}

} // verus!
