//! What the tray menu shows and what its entries do.

use vstd::prelude::*;
use vstd::string::*;
use crate::model::{SolarSettings, ThemeMode, ThemeState};
use crate::text::{starts_with, str_eq};

verus! {

pub const MENU_OPEN_MAIN: &'static str = "tray_open_main";
pub const MENU_THEME_DARK: &'static str = "tray_theme_dark";
pub const MENU_THEME_LIGHT: &'static str = "tray_theme_light";
pub const MENU_AUTO_THEME: &'static str = "tray_auto_theme";
pub const MENU_LANGUAGE_AUTO: &'static str = "tray_language_auto";
pub const MENU_LANGUAGE_PREFIX: &'static str = "tray_language_";
pub const MENU_LANGUAGE_MENU: &'static str = "tray_language_menu";
pub const MENU_QUIT: &'static str = "tray_quit";

/// Check marks and availability of the two theme entries: the current theme is
/// checked and cannot be chosen again.
#[derive(Debug)]
pub struct ThemeMenuFlags {
    pub dark_checked: bool,
    pub dark_enabled: bool,
    pub light_checked: bool,
    pub light_enabled: bool,
}

pub fn theme_menu_flags(mode: ThemeMode) -> (r: ThemeMenuFlags)
    ensures
        r.dark_checked == (mode == ThemeMode::Dark),
        r.dark_enabled == (mode != ThemeMode::Dark),
        r.light_checked == (mode != ThemeMode::Dark),
        r.light_enabled == (mode == ThemeMode::Dark),
{
    let dark_selected = mode == ThemeMode::Dark;
    ThemeMenuFlags {
        dark_checked: dark_selected,
        dark_enabled: !dark_selected,
        light_checked: !dark_selected,
        light_enabled: dark_selected,
    }
}

/// What choosing a tray menu entry does.
#[derive(Debug)]
pub enum MenuAction {
    OpenMain,
    SetTheme(ThemeState),
    ToggleAutoTheme,
    Quit,
    LanguageAuto,
    /// Switch to the language named after the language prefix.
    Language(String),
    Nothing,
}

/// The action of the menu entry with identifier `menu_id`.
pub fn menu_action(menu_id: &str) -> (r: MenuAction)
    ensures
        if menu_id@ == MENU_OPEN_MAIN@ {
            r is OpenMain
        } else if menu_id@ == MENU_THEME_DARK@ {
            r == MenuAction::SetTheme(ThemeState { apps: ThemeMode::Dark, system: ThemeMode::Dark })
        } else if menu_id@ == MENU_THEME_LIGHT@ {
            r == MenuAction::SetTheme(
                ThemeState { apps: ThemeMode::Light, system: ThemeMode::Light },
            )
        } else if menu_id@ == MENU_AUTO_THEME@ {
            r is ToggleAutoTheme
        } else if menu_id@ == MENU_QUIT@ {
            r is Quit
        } else if menu_id@ == MENU_LANGUAGE_AUTO@ {
            r is LanguageAuto
        } else if MENU_LANGUAGE_PREFIX@.len() <= menu_id@.len() && menu_id@.subrange(
            0,
            MENU_LANGUAGE_PREFIX@.len() as int,
        ) == MENU_LANGUAGE_PREFIX@ {
            r is Language && MENU_LANGUAGE_PREFIX@ + r->Language_0@ == menu_id@
        } else {
            r is Nothing
        },
{
    if str_eq(menu_id, MENU_OPEN_MAIN) {
        MenuAction::OpenMain
    } else if str_eq(menu_id, MENU_THEME_DARK) {
        MenuAction::SetTheme(ThemeState { apps: ThemeMode::Dark, system: ThemeMode::Dark })
    } else if str_eq(menu_id, MENU_THEME_LIGHT) {
        MenuAction::SetTheme(ThemeState { apps: ThemeMode::Light, system: ThemeMode::Light })
    } else if str_eq(menu_id, MENU_AUTO_THEME) {
        MenuAction::ToggleAutoTheme
    } else if str_eq(menu_id, MENU_QUIT) {
        MenuAction::Quit
    } else if str_eq(menu_id, MENU_LANGUAGE_AUTO) {
        MenuAction::LanguageAuto
    } else if starts_with(menu_id, MENU_LANGUAGE_PREFIX) {
        let n = menu_id.unicode_len();
        let p = MENU_LANGUAGE_PREFIX.unicode_len();
        let rest = menu_id.substring_char(p, n);
        assert(MENU_LANGUAGE_PREFIX@ + rest@ =~= menu_id@);
        MenuAction::Language(String::from_str(rest))
    } else {
        MenuAction::Nothing
    }
}

/// What the automatic-switching entry does when chosen.
#[derive(Debug)]
pub enum AutoThemeClick {
    /// No location is saved: open the main window and ask for one.
    ConfigurationRequired,
    /// Switch automatic theming to this.
    SetEnabled(bool),
}

pub fn auto_theme_click(settings: &SolarSettings) -> (r: AutoThemeClick)
    ensures
        settings.location is None ==> r is ConfigurationRequired,
        settings.location is Some ==> r == AutoThemeClick::SetEnabled(
            !settings.auto_theme_enabled,
        ),
{
    if settings.location.is_none() {
        AutoThemeClick::ConfigurationRequired
    } else {
        AutoThemeClick::SetEnabled(!settings.auto_theme_enabled)
    }
}

} // verus!
