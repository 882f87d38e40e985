//! Interface languages: which one applies, and the tray menu's texts in each.

use vstd::prelude::*;
use vstd::string::*;
use crate::model::LanguageSettings;
use crate::text::{eq_ignore_ascii_case, eq_ignore_case, starts_with, str_eq, trim, trimmed};

verus! {

/// The preference that follows the system's locale.
pub const LANGUAGE_PREFERENCE_AUTO: &'static str = "auto";

/// The texts of the tray menu in one language.
#[derive(Debug)]
pub struct TrayTexts {
    pub open_main: &'static str,
    pub dark_mode: &'static str,
    pub light_mode: &'static str,
    pub language_menu: &'static str,
    pub language_auto: &'static str,
    pub quit: &'static str,
}

impl TrayTexts {
    /// The texts in menu order.
    pub open spec fn texts(&self) -> Seq<Seq<char>> {
        seq![
            self.open_main@,
            self.dark_mode@,
            self.light_mode@,
            self.language_menu@,
            self.language_auto@,
            self.quit@,
        ]
    }
}

pub open spec fn has_prefix(s: Seq<char>, p: Seq<char>) -> bool {
    p.len() <= s.len() && s.subrange(0, p.len() as int) == p
}

/// Index of the first dash at or after `i`, or the length when there is none.
pub open spec fn dash_index(s: Seq<char>, i: int) -> int
    decreases s.len() - i,
{
    if 0 <= i < s.len() && s[i] != '-' {
        dash_index(s, i + 1)
    } else {
        i
    }
}

/// The part between the first and second dash (or the end); empty without a dash.
pub open spec fn second_segment(s: Seq<char>) -> Seq<char> {
    let p = dash_index(s, 0);
    if p >= s.len() {
        Seq::empty()
    } else {
        s.subrange(p + 1, dash_index(s, p + 1))
    }
}

/// Underscores written as dashes.
pub open spec fn dashes(s: Seq<char>) -> Seq<char> {
    s.map_values(|c: char| if c == '_' { '-' } else { c })
}

/// Unicode lower case of a text, as `str::to_lowercase` gives it.
pub uninterp spec fn lower_of(s: Seq<char>) -> Seq<char>;

/// Relies on `str::to_lowercase`: the result depends on the characters alone.
#[verifier::external_body]
fn lowercase(s: &str) -> (r: String)
    ensures
        r@ == lower_of(s@),
{
    s.to_lowercase()
}

fn dash_index_of(s: &str, from: usize) -> (r: usize)
    requires
        from <= s@.len(),
    ensures
        r == dash_index(s@, from as int),
        from <= r <= s@.len(),
{
    let n = s.unicode_len();
    let mut i = from;
    while i < n && s.get_char(i) != '-'
        invariant
            n == s@.len(),
            from <= i <= n,
            dash_index(s@, i as int) == dash_index(s@, from as int),
        decreases n - i,
    {
        i = i + 1;
    }
    i
}

/// The part of `s` between its first and second dash.
pub fn second_segment_of(s: &str) -> (r: &str)
    ensures
        r@ == second_segment(s@),
{
    let n = s.unicode_len();
    let p = dash_index_of(s, 0);
    if p >= n {
        return s.substring_char(0, 0);
    }
    let q = dash_index_of(s, p + 1);
    s.substring_char(p + 1, q)
}

/// `s` with every underscore replaced by a dash.
pub fn replace_underscores(s: &str) -> (r: String)
    ensures
        r@ == dashes(s@),
{
    let n = s.unicode_len();
    let mut out = String::new();
    let mut i: usize = 0;
    while i < n
        invariant
            n == s@.len(),
            i <= n,
            out@ == dashes(s@.subrange(0, i as int)),
        decreases n - i,
    {
        let c = s.get_char(i);
        let ghost before = out@;
        if c == '_' {
            out.append("-");
            proof {
                reveal_strlit("-");
            }
            assert("-"@ =~= seq!['-']);
        } else {
            let one = s.substring_char(i, i + 1);
            assert(one@ =~= seq![c]);
            out.append(one);
        }
        assert(dashes(s@.subrange(0, i + 1)) =~= dashes(s@.subrange(0, i as int)).push(
            if c == '_' {
                '-'
            } else {
                c
            },
        ));
        i = i + 1;
    }
    assert(s@.subrange(0, n as int) =~= s@);
    out
}

/// The languages the program ships with.
pub open spec fn installer_languages() -> Seq<Seq<char>> {
    seq![
        "English"@,
        "SimpChinese"@,
        "TradChinese"@,
        "Japanese"@,
        "Korean"@,
        "Thai"@,
        "Vietnamese"@,
        "Indonesian"@,
        "French"@,
        "German"@,
        "Italian"@,
        "Spanish"@,
        "SpanishInternational"@,
        "Portuguese"@,
        "PortugueseBR"@,
        "Russian"@,
        "Polish"@,
        "Turkish"@,
        "Ukrainian"@,
        "Czech"@,
        "Hungarian"@,
        "Greek"@,
        "Bulgarian"@,
        "Romanian"@,
        "Arabic"@,
        "Dutch"@,
        "Danish"@,
        "Finnish"@,
        "Norwegian"@,
        "Swedish"@,
    ]
}

/// The languages the program ships with.
pub fn installer_language_list() -> (r: Vec<&'static str>)
    ensures
        r@.map_values(|s: &str| s@) == installer_languages(),
{
    let r = vec![
        "English",
        "SimpChinese",
        "TradChinese",
        "Japanese",
        "Korean",
        "Thai",
        "Vietnamese",
        "Indonesian",
        "French",
        "German",
        "Italian",
        "Spanish",
        "SpanishInternational",
        "Portuguese",
        "PortugueseBR",
        "Russian",
        "Polish",
        "Turkish",
        "Ukrainian",
        "Czech",
        "Hungarian",
        "Greek",
        "Bulgarian",
        "Romanian",
        "Arabic",
        "Dutch",
        "Danish",
        "Finnish",
        "Norwegian",
        "Swedish",
    ];
    assert(r@.map_values(|s: &str| s@) =~= installer_languages());
    r
}

/// The tray menu texts in a language; languages without their own texts get English.
pub open spec fn tray_texts_of(language: Seq<char>) -> Seq<Seq<char>> {
    if language == "SimpChinese"@ {
        seq!["打开主界面"@, "深色模式"@, "浅色模式"@, "语言"@, "自动（跟随系统）"@, "退出"@]
    } else if language == "TradChinese"@ {
        seq!["開啟主畫面"@, "深色模式"@, "淺色模式"@, "語言"@, "自動（跟隨系統）"@, "退出"@]
    } else if language == "Japanese"@ {
        seq!["メイン画面を開く"@, "ダークモード"@, "ライトモード"@, "言語"@, "自動（システムに従う）"@, "終了"@]
    } else if language == "Korean"@ {
        seq!["메인 창 열기"@, "다크 모드"@, "라이트 모드"@, "언어"@, "자동 (시스템 따라가기)"@, "종료"@]
    } else if language == "Thai"@ {
        seq!["เปิดหน้าหลัก"@, "โหมดมืด"@, "โหมดสว่าง"@, "ภาษา"@, "อัตโนมัติ (ตามระบบ)"@, "ออก"@]
    } else if language == "Vietnamese"@ {
        seq!["Mở cửa sổ chính"@, "Chế độ tối"@, "Chế độ sáng"@, "Ngôn ngữ"@, "Tự động (Theo hệ thống)"@, "Thoát"@]
    } else if language == "Indonesian"@ {
        seq!["Buka jendela utama"@, "Mode gelap"@, "Mode terang"@, "Bahasa"@, "Otomatis (Ikuti sistem)"@, "Keluar"@]
    } else if language == "French"@ {
        seq!["Ouvrir la fenêtre principale"@, "Mode sombre"@, "Mode clair"@, "Langue"@, "Auto (Suivre le système)"@, "Quitter"@]
    } else if language == "German"@ {
        seq!["Hauptfenster öffnen"@, "Dunkelmodus"@, "Hellmodus"@, "Sprache"@, "Automatisch (System folgen)"@, "Beenden"@]
    } else if language == "Italian"@ {
        seq!["Apri finestra principale"@, "Modalità scura"@, "Modalità chiara"@, "Lingua"@, "Automatico (Segui sistema)"@, "Esci"@]
    } else if language == "Spanish"@ || language == "SpanishInternational"@ {
        seq!["Abrir ventana principal"@, "Modo oscuro"@, "Modo claro"@, "Idioma"@, "Automático (Seguir sistema)"@, "Salir"@]
    } else if language == "Portuguese"@ || language == "PortugueseBR"@ {
        seq!["Abrir janela principal"@, "Modo escuro"@, "Modo claro"@, "Idioma"@, "Automático (Seguir sistema)"@, "Sair"@]
    } else if language == "Russian"@ {
        seq!["Открыть главное окно"@, "Тёмный режим"@, "Светлый режим"@, "Язык"@, "Авто (Следовать системе)"@, "Выход"@]
    } else if language == "Polish"@ {
        seq!["Otwórz okno główne"@, "Tryb ciemny"@, "Tryb jasny"@, "Język"@, "Automatycznie (Jak system)"@, "Zakończ"@]
    } else if language == "Turkish"@ {
        seq!["Ana pencereyi aç"@, "Koyu mod"@, "Açık mod"@, "Dil"@, "Otomatik (Sistemi izle)"@, "Çıkış"@]
    } else if language == "Ukrainian"@ {
        seq!["Відкрити головне вікно"@, "Темний режим"@, "Світлий режим"@, "Мова"@, "Авто (Слідувати системі)"@, "Вийти"@]
    } else if language == "Czech"@ {
        seq!["Otevřít hlavní okno"@, "Tmavý režim"@, "Světlý režim"@, "Jazyk"@, "Automaticky (Podle systému)"@, "Ukončit"@]
    } else if language == "Hungarian"@ {
        seq!["Főablak megnyitása"@, "Sötét mód"@, "Világos mód"@, "Nyelv"@, "Automatikus (Rendszer szerint)"@, "Kilépés"@]
    } else if language == "Greek"@ {
        seq!["Άνοιγμα κύριου παραθύρου"@, "Σκοτεινή λειτουργία"@, "Φωτεινή λειτουργία"@, "Γλώσσα"@, "Αυτόματα (Ακολουθεί σύστημα)"@, "Έξοδος"@]
    } else if language == "Bulgarian"@ {
        seq!["Отвори главния прозорец"@, "Тъмен режим"@, "Светъл режим"@, "Език"@, "Автоматично (По системата)"@, "Изход"@]
    } else if language == "Romanian"@ {
        seq!["Deschide fereastra principală"@, "Mod întunecat"@, "Mod luminos"@, "Limbă"@, "Automat (Urmează sistemul)"@, "Ieșire"@]
    } else if language == "Arabic"@ {
        seq!["فتح النافذة الرئيسية"@, "الوضع الداكن"@, "الوضع الفاتح"@, "اللغة"@, "تلقائي (اتّباع النظام)"@, "خروج"@]
    } else if language == "Dutch"@ {
        seq!["Hoofdvenster openen"@, "Donkere modus"@, "Lichte modus"@, "Taal"@, "Automatisch (Systeem volgen)"@, "Afsluiten"@]
    } else if language == "Danish"@ {
        seq!["Åbn hovedvindue"@, "Mørk tilstand"@, "Lys tilstand"@, "Sprog"@, "Auto (Følg system)"@, "Afslut"@]
    } else if language == "Finnish"@ {
        seq!["Avaa pääikkuna"@, "Tumma tila"@, "Vaalea tila"@, "Kieli"@, "Automaattinen (Seuraa järjestelmää)"@, "Poistu"@]
    } else if language == "Norwegian"@ {
        seq!["Åpne hovedvindu"@, "Mørk modus"@, "Lys modus"@, "Språk"@, "Auto (Følg system)"@, "Avslutt"@]
    } else if language == "Swedish"@ {
        seq!["Öppna huvudfönster"@, "Mörkt läge"@, "Ljust läge"@, "Språk"@, "Auto (Följ systemet)"@, "Avsluta"@]
    } else {
        seq!["Open Main Window"@, "Dark Mode"@, "Light Mode"@, "Language"@, "Auto (Follow System)"@, "Quit"@]
    }
}

/// The tray menu texts in `language`.
pub fn tray_texts(language: &str) -> (r: TrayTexts)
    ensures
        r.texts() == tray_texts_of(language@),
{
    let r = if str_eq(language, "SimpChinese") {
        TrayTexts {
            open_main: "打开主界面",
            dark_mode: "深色模式",
            light_mode: "浅色模式",
            language_menu: "语言",
            language_auto: "自动（跟随系统）",
            quit: "退出",
        }
    } else if str_eq(language, "TradChinese") {
        TrayTexts {
            open_main: "開啟主畫面",
            dark_mode: "深色模式",
            light_mode: "淺色模式",
            language_menu: "語言",
            language_auto: "自動（跟隨系統）",
            quit: "退出",
        }
    } else if str_eq(language, "Japanese") {
        TrayTexts {
            open_main: "メイン画面を開く",
            dark_mode: "ダークモード",
            light_mode: "ライトモード",
            language_menu: "言語",
            language_auto: "自動（システムに従う）",
            quit: "終了",
        }
    } else if str_eq(language, "Korean") {
        TrayTexts {
            open_main: "메인 창 열기",
            dark_mode: "다크 모드",
            light_mode: "라이트 모드",
            language_menu: "언어",
            language_auto: "자동 (시스템 따라가기)",
            quit: "종료",
        }
    } else if str_eq(language, "Thai") {
        TrayTexts {
            open_main: "เปิดหน้าหลัก",
            dark_mode: "โหมดมืด",
            light_mode: "โหมดสว่าง",
            language_menu: "ภาษา",
            language_auto: "อัตโนมัติ (ตามระบบ)",
            quit: "ออก",
        }
    } else if str_eq(language, "Vietnamese") {
        TrayTexts {
            open_main: "Mở cửa sổ chính",
            dark_mode: "Chế độ tối",
            light_mode: "Chế độ sáng",
            language_menu: "Ngôn ngữ",
            language_auto: "Tự động (Theo hệ thống)",
            quit: "Thoát",
        }
    } else if str_eq(language, "Indonesian") {
        TrayTexts {
            open_main: "Buka jendela utama",
            dark_mode: "Mode gelap",
            light_mode: "Mode terang",
            language_menu: "Bahasa",
            language_auto: "Otomatis (Ikuti sistem)",
            quit: "Keluar",
        }
    } else if str_eq(language, "French") {
        TrayTexts {
            open_main: "Ouvrir la fenêtre principale",
            dark_mode: "Mode sombre",
            light_mode: "Mode clair",
            language_menu: "Langue",
            language_auto: "Auto (Suivre le système)",
            quit: "Quitter",
        }
    } else if str_eq(language, "German") {
        TrayTexts {
            open_main: "Hauptfenster öffnen",
            dark_mode: "Dunkelmodus",
            light_mode: "Hellmodus",
            language_menu: "Sprache",
            language_auto: "Automatisch (System folgen)",
            quit: "Beenden",
        }
    } else if str_eq(language, "Italian") {
        TrayTexts {
            open_main: "Apri finestra principale",
            dark_mode: "Modalità scura",
            light_mode: "Modalità chiara",
            language_menu: "Lingua",
            language_auto: "Automatico (Segui sistema)",
            quit: "Esci",
        }
    } else if str_eq(language, "Spanish") || str_eq(language, "SpanishInternational") {
        TrayTexts {
            open_main: "Abrir ventana principal",
            dark_mode: "Modo oscuro",
            light_mode: "Modo claro",
            language_menu: "Idioma",
            language_auto: "Automático (Seguir sistema)",
            quit: "Salir",
        }
    } else if str_eq(language, "Portuguese") || str_eq(language, "PortugueseBR") {
        TrayTexts {
            open_main: "Abrir janela principal",
            dark_mode: "Modo escuro",
            light_mode: "Modo claro",
            language_menu: "Idioma",
            language_auto: "Automático (Seguir sistema)",
            quit: "Sair",
        }
    } else if str_eq(language, "Russian") {
        TrayTexts {
            open_main: "Открыть главное окно",
            dark_mode: "Тёмный режим",
            light_mode: "Светлый режим",
            language_menu: "Язык",
            language_auto: "Авто (Следовать системе)",
            quit: "Выход",
        }
    } else if str_eq(language, "Polish") {
        TrayTexts {
            open_main: "Otwórz okno główne",
            dark_mode: "Tryb ciemny",
            light_mode: "Tryb jasny",
            language_menu: "Język",
            language_auto: "Automatycznie (Jak system)",
            quit: "Zakończ",
        }
    } else if str_eq(language, "Turkish") {
        TrayTexts {
            open_main: "Ana pencereyi aç",
            dark_mode: "Koyu mod",
            light_mode: "Açık mod",
            language_menu: "Dil",
            language_auto: "Otomatik (Sistemi izle)",
            quit: "Çıkış",
        }
    } else if str_eq(language, "Ukrainian") {
        TrayTexts {
            open_main: "Відкрити головне вікно",
            dark_mode: "Темний режим",
            light_mode: "Світлий режим",
            language_menu: "Мова",
            language_auto: "Авто (Слідувати системі)",
            quit: "Вийти",
        }
    } else if str_eq(language, "Czech") {
        TrayTexts {
            open_main: "Otevřít hlavní okno",
            dark_mode: "Tmavý režim",
            light_mode: "Světlý režim",
            language_menu: "Jazyk",
            language_auto: "Automaticky (Podle systému)",
            quit: "Ukončit",
        }
    } else if str_eq(language, "Hungarian") {
        TrayTexts {
            open_main: "Főablak megnyitása",
            dark_mode: "Sötét mód",
            light_mode: "Világos mód",
            language_menu: "Nyelv",
            language_auto: "Automatikus (Rendszer szerint)",
            quit: "Kilépés",
        }
    } else if str_eq(language, "Greek") {
        TrayTexts {
            open_main: "Άνοιγμα κύριου παραθύρου",
            dark_mode: "Σκοτεινή λειτουργία",
            light_mode: "Φωτεινή λειτουργία",
            language_menu: "Γλώσσα",
            language_auto: "Αυτόματα (Ακολουθεί σύστημα)",
            quit: "Έξοδος",
        }
    } else if str_eq(language, "Bulgarian") {
        TrayTexts {
            open_main: "Отвори главния прозорец",
            dark_mode: "Тъмен режим",
            light_mode: "Светъл режим",
            language_menu: "Език",
            language_auto: "Автоматично (По системата)",
            quit: "Изход",
        }
    } else if str_eq(language, "Romanian") {
        TrayTexts {
            open_main: "Deschide fereastra principală",
            dark_mode: "Mod întunecat",
            light_mode: "Mod luminos",
            language_menu: "Limbă",
            language_auto: "Automat (Urmează sistemul)",
            quit: "Ieșire",
        }
    } else if str_eq(language, "Arabic") {
        TrayTexts {
            open_main: "فتح النافذة الرئيسية",
            dark_mode: "الوضع الداكن",
            light_mode: "الوضع الفاتح",
            language_menu: "اللغة",
            language_auto: "تلقائي (اتّباع النظام)",
            quit: "خروج",
        }
    } else if str_eq(language, "Dutch") {
        TrayTexts {
            open_main: "Hoofdvenster openen",
            dark_mode: "Donkere modus",
            light_mode: "Lichte modus",
            language_menu: "Taal",
            language_auto: "Automatisch (Systeem volgen)",
            quit: "Afsluiten",
        }
    } else if str_eq(language, "Danish") {
        TrayTexts {
            open_main: "Åbn hovedvindue",
            dark_mode: "Mørk tilstand",
            light_mode: "Lys tilstand",
            language_menu: "Sprog",
            language_auto: "Auto (Følg system)",
            quit: "Afslut",
        }
    } else if str_eq(language, "Finnish") {
        TrayTexts {
            open_main: "Avaa pääikkuna",
            dark_mode: "Tumma tila",
            light_mode: "Vaalea tila",
            language_menu: "Kieli",
            language_auto: "Automaattinen (Seuraa järjestelmää)",
            quit: "Poistu",
        }
    } else if str_eq(language, "Norwegian") {
        TrayTexts {
            open_main: "Åpne hovedvindu",
            dark_mode: "Mørk modus",
            light_mode: "Lys modus",
            language_menu: "Språk",
            language_auto: "Auto (Følg system)",
            quit: "Avslutt",
        }
    } else if str_eq(language, "Swedish") {
        TrayTexts {
            open_main: "Öppna huvudfönster",
            dark_mode: "Mörkt läge",
            light_mode: "Ljust läge",
            language_menu: "Språk",
            language_auto: "Auto (Följ systemet)",
            quit: "Avsluta",
        }
    } else {
        TrayTexts {
            open_main: "Open Main Window",
            dark_mode: "Dark Mode",
            light_mode: "Light Mode",
            language_menu: "Language",
            language_auto: "Auto (Follow System)",
            quit: "Quit",
        }
    };
    assert(r.texts() =~= tray_texts_of(language@));
    r
}

/// A language's name in that language, for the language menu.
pub open spec fn option_label_of(language: Seq<char>) -> Seq<char> {
    if language == "English"@ {
        "English"@
    } else if language == "SimpChinese"@ {
        "简体中文"@
    } else if language == "TradChinese"@ {
        "繁體中文"@
    } else if language == "Japanese"@ {
        "日本語"@
    } else if language == "Korean"@ {
        "한국어"@
    } else if language == "Thai"@ {
        "ไทย"@
    } else if language == "Vietnamese"@ {
        "Tiếng Việt"@
    } else if language == "Indonesian"@ {
        "Bahasa Indonesia"@
    } else if language == "French"@ {
        "Français"@
    } else if language == "German"@ {
        "Deutsch"@
    } else if language == "Italian"@ {
        "Italiano"@
    } else if language == "Spanish"@ {
        "Español (España)"@
    } else if language == "SpanishInternational"@ {
        "Español (Internacional)"@
    } else if language == "Portuguese"@ {
        "Português (Portugal)"@
    } else if language == "PortugueseBR"@ {
        "Português (Brasil)"@
    } else if language == "Russian"@ {
        "Русский"@
    } else if language == "Polish"@ {
        "Polski"@
    } else if language == "Turkish"@ {
        "Türkçe"@
    } else if language == "Ukrainian"@ {
        "Українська"@
    } else if language == "Czech"@ {
        "Čeština"@
    } else if language == "Hungarian"@ {
        "Magyar"@
    } else if language == "Greek"@ {
        "Ελληνικά"@
    } else if language == "Bulgarian"@ {
        "Български"@
    } else if language == "Romanian"@ {
        "Română"@
    } else if language == "Arabic"@ {
        "العربية"@
    } else if language == "Dutch"@ {
        "Nederlands"@
    } else if language == "Danish"@ {
        "Dansk"@
    } else if language == "Finnish"@ {
        "Suomi"@
    } else if language == "Norwegian"@ {
        "Norsk"@
    } else if language == "Swedish"@ {
        "Svenska"@
    } else {
        "English"@
    }
}

/// The name of `language` in that language; English for names it does not know.
pub fn language_option_label(language: &str) -> (r: &'static str)
    ensures
        r@ == option_label_of(language@),
{
    if str_eq(language, "English") {
        "English"
    } else if str_eq(language, "SimpChinese") {
        "简体中文"
    } else if str_eq(language, "TradChinese") {
        "繁體中文"
    } else if str_eq(language, "Japanese") {
        "日本語"
    } else if str_eq(language, "Korean") {
        "한국어"
    } else if str_eq(language, "Thai") {
        "ไทย"
    } else if str_eq(language, "Vietnamese") {
        "Tiếng Việt"
    } else if str_eq(language, "Indonesian") {
        "Bahasa Indonesia"
    } else if str_eq(language, "French") {
        "Français"
    } else if str_eq(language, "German") {
        "Deutsch"
    } else if str_eq(language, "Italian") {
        "Italiano"
    } else if str_eq(language, "Spanish") {
        "Español (España)"
    } else if str_eq(language, "SpanishInternational") {
        "Español (Internacional)"
    } else if str_eq(language, "Portuguese") {
        "Português (Portugal)"
    } else if str_eq(language, "PortugueseBR") {
        "Português (Brasil)"
    } else if str_eq(language, "Russian") {
        "Русский"
    } else if str_eq(language, "Polish") {
        "Polski"
    } else if str_eq(language, "Turkish") {
        "Türkçe"
    } else if str_eq(language, "Ukrainian") {
        "Українська"
    } else if str_eq(language, "Czech") {
        "Čeština"
    } else if str_eq(language, "Hungarian") {
        "Magyar"
    } else if str_eq(language, "Greek") {
        "Ελληνικά"
    } else if str_eq(language, "Bulgarian") {
        "Български"
    } else if str_eq(language, "Romanian") {
        "Română"
    } else if str_eq(language, "Arabic") {
        "العربية"
    } else if str_eq(language, "Dutch") {
        "Nederlands"
    } else if str_eq(language, "Danish") {
        "Dansk"
    } else if str_eq(language, "Finnish") {
        "Suomi"
    } else if str_eq(language, "Norwegian") {
        "Norsk"
    } else if str_eq(language, "Swedish") {
        "Svenska"
    } else {
        "English"
    }
}

/// The language for a locale name already trimmed, with dashes, in lower case.
pub open spec fn locale_language(n: Seq<char>) -> Seq<char> {
    if has_prefix(n, "zh-cn"@) || has_prefix(n, "zh-sg"@) {
        "SimpChinese"@
    } else if has_prefix(n, "zh-tw"@) || has_prefix(n, "zh-hk"@) || has_prefix(n, "zh-mo"@) {
        "TradChinese"@
    } else if has_prefix(n, "ja"@) {
        "Japanese"@
    } else if has_prefix(n, "ko"@) {
        "Korean"@
    } else if has_prefix(n, "th"@) {
        "Thai"@
    } else if has_prefix(n, "vi"@) {
        "Vietnamese"@
    } else if has_prefix(n, "id"@) {
        "Indonesian"@
    } else if has_prefix(n, "fr"@) {
        "French"@
    } else if has_prefix(n, "de"@) {
        "German"@
    } else if has_prefix(n, "it"@) {
        "Italian"@
    } else if has_prefix(n, "es"@) {
        if eq_ignore_case(second_segment(n), "es"@) {
            "Spanish"@
        } else {
            "SpanishInternational"@
        }
    } else if has_prefix(n, "pt-br"@) {
        "PortugueseBR"@
    } else if has_prefix(n, "pt"@) {
        "Portuguese"@
    } else if has_prefix(n, "ru"@) {
        "Russian"@
    } else if has_prefix(n, "pl"@) {
        "Polish"@
    } else if has_prefix(n, "tr"@) {
        "Turkish"@
    } else if has_prefix(n, "uk"@) {
        "Ukrainian"@
    } else if has_prefix(n, "cs"@) {
        "Czech"@
    } else if has_prefix(n, "hu"@) {
        "Hungarian"@
    } else if has_prefix(n, "el"@) {
        "Greek"@
    } else if has_prefix(n, "bg"@) {
        "Bulgarian"@
    } else if has_prefix(n, "ro"@) {
        "Romanian"@
    } else if has_prefix(n, "ar"@) {
        "Arabic"@
    } else if has_prefix(n, "nl"@) {
        "Dutch"@
    } else if has_prefix(n, "da"@) {
        "Danish"@
    } else if has_prefix(n, "fi"@) {
        "Finnish"@
    } else if has_prefix(n, "nb"@) || has_prefix(n, "nn"@) || has_prefix(n, "no"@) {
        "Norwegian"@
    } else if has_prefix(n, "sv"@) {
        "Swedish"@
    } else {
        "English"@
    }
}

/// The language for a locale name that is already trimmed, written with dashes
/// and in lower case.
pub fn language_for_normalized_locale(normalized: &str) -> (r: &'static str)
    ensures
        r@ == locale_language(normalized@),
{
    let n = normalized;
    if starts_with(n, "zh-cn") || starts_with(n, "zh-sg") {
        "SimpChinese"
    } else if starts_with(n, "zh-tw") || starts_with(n, "zh-hk") || starts_with(n, "zh-mo") {
        "TradChinese"
    } else if starts_with(n, "ja") {
        "Japanese"
    } else if starts_with(n, "ko") {
        "Korean"
    } else if starts_with(n, "th") {
        "Thai"
    } else if starts_with(n, "vi") {
        "Vietnamese"
    } else if starts_with(n, "id") {
        "Indonesian"
    } else if starts_with(n, "fr") {
        "French"
    } else if starts_with(n, "de") {
        "German"
    } else if starts_with(n, "it") {
        "Italian"
    } else if starts_with(n, "es") {
        let region = second_segment_of(n);
        if eq_ignore_ascii_case(region, "es") {
            "Spanish"
        } else {
            "SpanishInternational"
        }
    } else if starts_with(n, "pt-br") {
        "PortugueseBR"
    } else if starts_with(n, "pt") {
        "Portuguese"
    } else if starts_with(n, "ru") {
        "Russian"
    } else if starts_with(n, "pl") {
        "Polish"
    } else if starts_with(n, "tr") {
        "Turkish"
    } else if starts_with(n, "uk") {
        "Ukrainian"
    } else if starts_with(n, "cs") {
        "Czech"
    } else if starts_with(n, "hu") {
        "Hungarian"
    } else if starts_with(n, "el") {
        "Greek"
    } else if starts_with(n, "bg") {
        "Bulgarian"
    } else if starts_with(n, "ro") {
        "Romanian"
    } else if starts_with(n, "ar") {
        "Arabic"
    } else if starts_with(n, "nl") {
        "Dutch"
    } else if starts_with(n, "da") {
        "Danish"
    } else if starts_with(n, "fi") {
        "Finnish"
    } else if starts_with(n, "nb") || starts_with(n, "nn") || starts_with(n, "no") {
        "Norwegian"
    } else if starts_with(n, "sv") {
        "Swedish"
    } else {
        "English"
    }
}

/// The language a locale name such as `en_US` or `zh-CN` stands for.
pub open spec fn language_of_locale(locale: Seq<char>) -> Seq<char> {
    locale_language(lower_of(dashes(trimmed(locale))))
}

pub fn map_locale_to_language(locale: &str) -> (r: &'static str)
    ensures
        r@ == language_of_locale(locale@),
{
    let replaced = replace_underscores(trim(locale));
    let normalized = lowercase(replaced.as_str());
    language_for_normalized_locale(normalized.as_str())
}

/// The system's language, from its locale name; `en-US` when that is unknown.
pub open spec fn system_language(locale: Option<Seq<char>>) -> Seq<char> {
    match locale {
        Some(l) => language_of_locale(l),
        None => language_of_locale("en-US"@),
    }
}

pub fn detect_system_language(locale_name: Option<&str>) -> (r: &'static str)
    ensures
        r@ == system_language(
            match locale_name {
                Some(l) => Some(l@),
                None => None,
            },
        ),
{
    match locale_name {
        Some(l) => map_locale_to_language(l),
        None => map_locale_to_language("en-US"),
    }
}

/// The first of `list` equal to `l` up to ASCII case.
pub open spec fn first_folded(list: Seq<Seq<char>>, l: Seq<char>) -> Option<Seq<char>>
    decreases list.len(),
{
    if list.len() == 0 {
        None
    } else if eq_ignore_case(list[0], l) {
        Some(list[0])
    } else {
        first_folded(list.drop_first(), l)
    }
}

/// The shipped language that `l` names, ignoring ASCII case.
pub open spec fn canonical_language(l: Seq<char>) -> Option<Seq<char>> {
    first_folded(installer_languages(), l)
}

pub fn canonicalize_language(language: &str) -> (r: Option<&'static str>)
    ensures
        match r {
            Some(c) => canonical_language(language@) == Some(c@),
            None => canonical_language(language@) is None,
        },
{
    let list = installer_language_list();
    let ghost names = list@.map_values(|s: &str| s@);
    let mut i: usize = 0;
    assert(names.subrange(0, names.len() as int) =~= names);
    while i < list.len()
        invariant
            i <= list@.len(),
            names == list@.map_values(|s: &str| s@),
            names == installer_languages(),
            first_folded(names.subrange(i as int, names.len() as int), language@)
                == canonical_language(language@),
        decreases list@.len() - i,
    {
        let candidate = list[i];
        let ghost rest = names.subrange(i as int, names.len() as int);
        assert(rest[0] == candidate@);
        assert(rest.drop_first() =~= names.subrange(i + 1, names.len() as int));
        if eq_ignore_ascii_case(candidate, language) {
            proof {
                assert(eq_ignore_case(rest[0], language@) == eq_ignore_case(candidate@, language@));
            }
            return Some(candidate);
        }
        i = i + 1;
    }
    None
}

/// A preference that is not "auto" resolves to the language it names, English
/// when it names none.
pub open spec fn language_of_preference(preference: Seq<char>) -> Seq<char> {
    match canonical_language(preference) {
        Some(c) => c,
        None => "English"@,
    }
}

/// The language in effect for a preference: the system's for "auto".
pub open spec fn resolved_language(preference: Seq<char>, locale: Option<Seq<char>>) -> Seq<char> {
    if eq_ignore_case(preference, LANGUAGE_PREFERENCE_AUTO@) {
        system_language(locale)
    } else {
        language_of_preference(preference)
    }
}

/// The language in effect for `preference`; `system_locale` is the system's
/// locale name, none when it could not be read.
pub fn resolve_language(preference: &str, system_locale: Option<&str>) -> (r: &'static str)
    ensures
        r@ == resolved_language(
            preference@,
            match system_locale {
                Some(l) => Some(l@),
                None => None,
            },
        ),
{
    if eq_ignore_ascii_case(preference, LANGUAGE_PREFERENCE_AUTO) {
        return detect_system_language(system_locale);
    }
    match canonicalize_language(preference) {
        Some(c) => c,
        None => "English",
    }
}

/// The preference as stored: "auto" when absent or "auto" in any case, else
/// the language it names (English when it names none).
pub open spec fn preference_from_stored(stored: Option<Seq<char>>) -> Seq<char> {
    match stored {
        None => LANGUAGE_PREFERENCE_AUTO@,
        Some(s) => if eq_ignore_case(s, LANGUAGE_PREFERENCE_AUTO@) {
            LANGUAGE_PREFERENCE_AUTO@
        } else {
            language_of_preference(s)
        },
    }
}

pub fn language_preference_from_stored(stored: Option<&str>) -> (r: String)
    ensures
        r@ == preference_from_stored(
            match stored {
                Some(s) => Some(s@),
                None => None,
            },
        ),
{
    match stored {
        None => String::from_str(LANGUAGE_PREFERENCE_AUTO),
        Some(s) => {
            if eq_ignore_ascii_case(s, LANGUAGE_PREFERENCE_AUTO) {
                String::from_str(LANGUAGE_PREFERENCE_AUTO)
            } else {
                match canonicalize_language(s) {
                    Some(c) => String::from_str(c),
                    None => String::from_str("English"),
                }
            }
        },
    }
}

/// The form in which a preference is stored: "auto", or the shipped language it
/// names. Anything else is refused with a message naming it.
pub fn normalize_language_preference(preference: &str) -> (r: Result<&'static str, String>)
    ensures
        match r {
            Ok(p) => if eq_ignore_case(preference@, LANGUAGE_PREFERENCE_AUTO@) {
                p@ == LANGUAGE_PREFERENCE_AUTO@
            } else {
                canonical_language(preference@) == Some(p@)
            },
            Err(m) => !eq_ignore_case(preference@, LANGUAGE_PREFERENCE_AUTO@) && canonical_language(
                preference@,
            ) is None && m@ == "不支持的语言: "@ + preference@,
        },
{
    if eq_ignore_ascii_case(preference, LANGUAGE_PREFERENCE_AUTO) {
        return Ok(LANGUAGE_PREFERENCE_AUTO);
    }
    match canonicalize_language(preference) {
        Some(c) => Ok(c),
        None => Err(String::from_str("不支持的语言: ").concat(preference)),
    }
}

/// The language settings shown to the user: the preference, the language in
/// effect, and the shipped languages.
pub fn get_language_settings(preference: String, system_locale: Option<&str>) -> (r:
    LanguageSettings)
    ensures
        r.preference@ == preference@,
        r.resolved@ == resolved_language(
            preference@,
            match system_locale {
                Some(l) => Some(l@),
                None => None,
            },
        ),
        r.available@.map_values(|s: String| s@) == installer_languages(),
{
    let resolved = String::from_str(resolve_language(preference.as_str(), system_locale));
    let list = installer_language_list();
    let mut available: Vec<String> = Vec::new();
    let mut i: usize = 0;
    while i < list.len()
        invariant
            i <= list@.len(),
            list@.map_values(|s: &str| s@) == installer_languages(),
            available@.map_values(|s: String| s@) == list@.subrange(0, i as int).map_values(
                |s: &str| s@,
            ),
        decreases list@.len() - i,
    {
        let name = String::from_str(list[i]);
        let ghost before = available@.map_values(|s: String| s@);
        available.push(name);
        assert(available@.map_values(|s: String| s@) =~= before.push(list@[i as int]@));
        assert(list@.subrange(0, i + 1).map_values(|s: &str| s@) =~= list@.subrange(
            0,
            i as int,
        ).map_values(|s: &str| s@).push(list@[i as int]@));
        assert(available@.map_values(|s: String| s@) =~= list@.subrange(0, i + 1).map_values(
            |s: &str| s@,
        ));
        i = i + 1;
    }
    assert(list@.subrange(0, list@.len() as int) =~= list@);
    LanguageSettings { preference, resolved, available }
}

pub open spec fn auto_theme_label_of(language: Seq<char>, configured: bool, enabled: bool) -> Seq<
    char,
> {
    if language == "SimpChinese"@ {
        if !configured {
            "自动切换：未配置（点击前往设置）"@
        } else if enabled {
            "自动切换：开启"@
        } else {
            "自动切换：关闭"@
        }
    } else {
        if !configured {
            "Auto Switch: Not Configured (Click to Set Up)"@
        } else if enabled {
            "Auto Switch: On"@
        } else {
            "Auto Switch: Off"@
        }
    }
}

/// The tray entry for automatic switching: whether a location is configured,
/// and whether switching is on.
pub fn tray_auto_theme_label(language: &str, configured: bool, enabled: bool) -> (r: &'static str)
    ensures
        r@ == auto_theme_label_of(language@, configured, enabled),
{
    if str_eq(language, "SimpChinese") {
        if !configured {
            "自动切换：未配置（点击前往设置）"
        } else if enabled {
            "自动切换：开启"
        } else {
            "自动切换：关闭"
        }
    } else {
        if !configured {
            "Auto Switch: Not Configured (Click to Set Up)"
        } else if enabled {
            "Auto Switch: On"
        } else {
            "Auto Switch: Off"
        }
    }
}

pub open spec fn configuration_required_message_of(language: Seq<char>) -> Seq<char> {
    if language == "SimpChinese"@ {
        "请先在“地址日照与自动切换”中保存地址，再启用自动切换。"@
    } else {
        "Please save an address in Solar Settings before enabling auto switch."@
    }
}

/// The message shown when automatic switching is asked for without a saved location.
pub fn auto_theme_configuration_required_message(language: &str) -> (r: &'static str)
    ensures
        r@ == configuration_required_message_of(language@),
{
    if str_eq(language, "SimpChinese") {
        "请先在“地址日照与自动切换”中保存地址，再启用自动切换。"
    } else {
        "Please save an address in Solar Settings before enabling auto switch."
    }
}

/// The language menu's title, followed by the English word when it is not English.
pub open spec fn menu_label_of(language_menu: Seq<char>, current_language: Seq<char>) -> Seq<char> {
    if eq_ignore_case(current_language, "English"@) || eq_ignore_case(language_menu, "Language"@) {
        language_menu
    } else {
        language_menu + " (Language)"@
    }
}

pub fn language_menu_label(language_menu: &str, current_language: &str) -> (r: String)
    ensures
        r@ == menu_label_of(language_menu@, current_language@),
{
    if eq_ignore_ascii_case(current_language, "English") || eq_ignore_ascii_case(
        language_menu,
        "Language",
    ) {
        return String::from_str(language_menu);
    }
    String::from_str(language_menu).concat(" (Language)")
}

} // verus!
