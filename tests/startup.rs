use winlux::startup::{
    startup_enabled, startup_entry_targets_current_exe, startup_run_command,
    startup_values_to_remove,
};
use winlux::tray::{auto_theme_click, menu_action, theme_menu_flags, AutoThemeClick, MenuAction};
use winlux::window::{theme_script, WindowLifecycle};
use winlux::model::{SolarSettings, ThemeMode, ThemeState};

const EXE: &str = "C:\\Program Files\\WinLux\\winlux.exe";

#[test]
fn entry_recognition() {
    let cmd = startup_run_command(EXE);
    assert_eq!(cmd, "\"C:\\Program Files\\WinLux\\winlux.exe\" --startup");
    assert!(startup_entry_targets_current_exe(&cmd, EXE));
    assert!(startup_entry_targets_current_exe("  \"c:\\program files\\winlux\\WINLUX.EXE\" --STARTUP ", EXE));
    assert!(!startup_entry_targets_current_exe("\"C:\\Program Files\\WinLux\\winlux.exe\"", EXE));
    assert!(!startup_entry_targets_current_exe("other.exe --startup", EXE));
}

#[test]
fn enabled_by_name_or_command() {
    let values = vec![None, Some("other.exe".to_string()), Some(startup_run_command(EXE))];
    assert!(startup_enabled(true, None, &Vec::new()));
    assert!(startup_enabled(false, Some(EXE), &values));
    assert!(!startup_enabled(false, None, &values));
    assert!(!startup_enabled(false, Some(EXE), &values[..2].to_vec()));
}

#[test]
fn stale_entries_are_removed() {
    let entries = vec![
        ("WinLux".to_string(), Some(startup_run_command(EXE))),
        ("Old".to_string(), Some(startup_run_command(EXE))),
        ("Binary".to_string(), None),
        ("Other".to_string(), Some("other.exe --startup".to_string())),
        ("winlux".to_string(), Some(startup_run_command(EXE))),
        ("Copy".to_string(), Some(format!("{} --startup", EXE.to_uppercase()))),
    ];
    assert_eq!(startup_values_to_remove(EXE, &entries), vec!["Old".to_string(), "Copy".to_string()]);
}

#[test]
fn tray_decisions() {
    let dark = theme_menu_flags(ThemeMode::Dark);
    assert!(dark.dark_checked && !dark.dark_enabled && !dark.light_checked && dark.light_enabled);
    let light = theme_menu_flags(ThemeMode::Light);
    assert!(!light.dark_checked && light.dark_enabled && light.light_checked && !light.light_enabled);
    assert!(matches!(menu_action("tray_open_main"), MenuAction::OpenMain));
    assert!(matches!(menu_action("tray_quit"), MenuAction::Quit));
    assert!(matches!(menu_action("tray_auto_theme"), MenuAction::ToggleAutoTheme));
    assert!(matches!(menu_action("tray_language_auto"), MenuAction::LanguageAuto));
    match menu_action("tray_theme_dark") {
        MenuAction::SetTheme(s) => assert_eq!(s, ThemeState { apps: ThemeMode::Dark, system: ThemeMode::Dark }),
        other => panic!("unexpected {other:?}"),
    }
    match menu_action("tray_language_German") {
        MenuAction::Language(l) => assert_eq!(l, "German"),
        other => panic!("unexpected {other:?}"),
    }
    assert!(matches!(menu_action("unknown"), MenuAction::Nothing));
    let unconfigured = SolarSettings { location: None, auto_theme_enabled: false };
    assert!(matches!(auto_theme_click(&unconfigured), AutoThemeClick::ConfigurationRequired));
}

#[test]
fn window_lifecycle() {
    let mut w = WindowLifecycle::new();
    let scheduled = w.next_lifecycle_version();
    assert_eq!(scheduled, 1);
    assert!(w.is_current(scheduled));
    let reopened = w.next_lifecycle_version();
    assert_eq!(reopened, 2);
    assert!(!w.is_current(scheduled));
    assert_eq!(
        theme_script(ThemeMode::Dark),
        "document.documentElement.setAttribute('data-theme', 'dark');"
    );
}
