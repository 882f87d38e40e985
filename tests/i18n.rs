use winlux::i18n::{
    auto_theme_configuration_required_message, canonicalize_language, detect_system_language,
    get_language_settings, installer_language_list, language_menu_label, language_option_label,
    language_preference_from_stored, map_locale_to_language, normalize_language_preference,
    resolve_language, second_segment_of, tray_auto_theme_label, tray_texts,
};

#[test]
fn tray_texts_by_language() {
    let zh = tray_texts("SimpChinese");
    assert_eq!(zh.open_main, "打开主界面");
    assert_eq!(zh.quit, "退出");
    let es = tray_texts("SpanishInternational");
    assert_eq!(es.dark_mode, tray_texts("Spanish").dark_mode);
    let en = tray_texts("Klingon");
    assert_eq!(en.open_main, "Open Main Window");
    assert_eq!(en.language_auto, "Auto (Follow System)");
    assert_eq!(tray_texts("English").quit, "Quit");
}

#[test]
fn option_labels() {
    assert_eq!(language_option_label("German"), "Deutsch");
    assert_eq!(language_option_label("TradChinese"), "繁體中文");
    assert_eq!(language_option_label("german"), "English");
    for l in installer_language_list() {
        assert!(!language_option_label(l).is_empty());
    }
    assert_eq!(installer_language_list().len(), 30);
}

#[test]
fn locales_map_to_languages() {
    assert_eq!(map_locale_to_language("zh_CN"), "SimpChinese");
    assert_eq!(map_locale_to_language("zh-HK"), "TradChinese");
    assert_eq!(map_locale_to_language(" ja-JP "), "Japanese");
    assert_eq!(map_locale_to_language("es-ES"), "Spanish");
    assert_eq!(map_locale_to_language("es_MX"), "SpanishInternational");
    assert_eq!(map_locale_to_language("es"), "SpanishInternational");
    assert_eq!(map_locale_to_language("pt-BR"), "PortugueseBR");
    assert_eq!(map_locale_to_language("pt-PT"), "Portuguese");
    assert_eq!(map_locale_to_language("nb-NO"), "Norwegian");
    assert_eq!(map_locale_to_language("xx-YY"), "English");
    assert_eq!(map_locale_to_language("DE-at"), "German");
    assert_eq!(detect_system_language(None), "English");
    assert_eq!(detect_system_language(Some("sv-SE")), "Swedish");
}

#[test]
fn second_segment() {
    assert_eq!(second_segment_of("es-mx-x"), "mx");
    assert_eq!(second_segment_of("es"), "");
    assert_eq!(second_segment_of("es-"), "");
}

#[test]
fn preferences_resolve() {
    assert_eq!(canonicalize_language("german"), Some("German"));
    assert_eq!(canonicalize_language("PORTUGUESEBR"), Some("PortugueseBR"));
    assert_eq!(canonicalize_language("Klingon"), None);
    assert_eq!(resolve_language("auto", Some("fr-FR")), "French");
    assert_eq!(resolve_language("AUTO", None), "English");
    assert_eq!(resolve_language("korean", Some("fr-FR")), "Korean");
    assert_eq!(resolve_language("Klingon", Some("fr-FR")), "English");
    assert_eq!(language_preference_from_stored(None), "auto");
    assert_eq!(language_preference_from_stored(Some("Auto")), "auto");
    assert_eq!(language_preference_from_stored(Some("dutch")), "Dutch");
    assert_eq!(language_preference_from_stored(Some("???")), "English");
}

#[test]
fn preference_normalization() {
    assert_eq!(normalize_language_preference("AuTo"), Ok("auto"));
    assert_eq!(normalize_language_preference("finnish"), Ok("Finnish"));
    assert_eq!(normalize_language_preference("Klingon"), Err("不支持的语言: Klingon".to_string()));
}

#[test]
fn language_settings() {
    let s = get_language_settings("auto".to_string(), Some("it-IT"));
    assert_eq!(s.preference, "auto");
    assert_eq!(s.resolved, "Italian");
    assert_eq!(s.available.len(), 30);
    assert_eq!(s.available[0], "English");
    assert_eq!(s.available[29], "Swedish");
}

#[test]
fn auto_theme_labels() {
    assert_eq!(tray_auto_theme_label("English", false, true), "Auto Switch: Not Configured (Click to Set Up)");
    assert_eq!(tray_auto_theme_label("German", true, true), "Auto Switch: On");
    assert_eq!(tray_auto_theme_label("French", true, false), "Auto Switch: Off");
    assert_eq!(tray_auto_theme_label("SimpChinese", true, true), "自动切换：开启");
    assert_eq!(
        auto_theme_configuration_required_message("Dutch"),
        "Please save an address in Solar Settings before enabling auto switch."
    );
    assert!(auto_theme_configuration_required_message("SimpChinese").starts_with("请先"));
}

#[test]
fn menu_labels() {
    assert_eq!(language_menu_label("Language", "German"), "Language");
    assert_eq!(language_menu_label("Sprache", "english"), "Sprache");
    assert_eq!(language_menu_label("语言", "SimpChinese"), "语言 (Language)");
}
