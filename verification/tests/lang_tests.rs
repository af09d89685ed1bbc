use oebb_monitor::config::{config_text, has_flag, parse_config};
use oebb_monitor::lang::Lang;

#[test]
fn code_roundtrip() {
    assert_eq!(Lang::from_code("de"), Some(Lang::De));
    assert_eq!(Lang::from_code("EN"), Some(Lang::En));
    assert_eq!(Lang::from_code("fr"), None);
    assert_eq!(Lang::De.code(), "de");
    assert_eq!(Lang::En.code(), "en");
    assert_eq!(Lang::De.toggle(), Lang::En);
}

#[test]
fn car_types_localized() {
    let t = |l: Lang, s: &str| l.car_type_label(&[s.to_string()]);
    assert_eq!(t(Lang::De, "sleeper"), Some("🛏️ Schlafwagen"));
    assert_eq!(t(Lang::En, "sleeper"), Some("🛏️ Sleeper"));
    assert_eq!(t(Lang::En, "car"), Some("🚗 Car carrier"));
    assert_eq!(t(Lang::De, "unknown"), None);
}

#[test]
fn class_localized() {
    assert_eq!(Lang::De.class_label("W_1").as_deref(), Some("1. Klasse"));
    assert_eq!(Lang::En.class_label("W_1").as_deref(), Some("1st class"));
    assert_eq!(
        Lang::En.class_label("W_C_1").as_deref(),
        Some("Comfort + 1st class")
    );
    assert_eq!(Lang::En.class_label("W_Schlaf"), None);
}

#[test]
fn icons_localized() {
    assert_eq!(Lang::De.icon_label("wlan"), "📶 WLAN");
    assert_eq!(Lang::En.icon_label("wlan"), "📶 Wi-Fi");
    assert_eq!(Lang::En.icon_label("unknown_code"), "unknown_code");
}

#[test]
fn code_read_with_whitespace_and_case() {
    assert_eq!(Lang::from_code("  En \n"), Some(Lang::En));
    assert_eq!(Lang::from_code("DE"), Some(Lang::De));
    assert_eq!(Lang::from_code(""), None);
    assert_eq!(Lang::from_code("d e"), None);
}

#[test]
fn every_code_reads_back() {
    for l in [Lang::De, Lang::En] {
        assert_eq!(Lang::from_code(l.code()), Some(l));
    }
}

#[test]
fn toggle_twice_is_identity() {
    for l in [Lang::De, Lang::En] {
        assert_eq!(l.toggle().toggle(), l);
        assert_ne!(l.toggle(), l);
    }
}

#[test]
fn class_label_business_and_unknown_segments() {
    assert_eq!(Lang::En.class_label("W_1_B").as_deref(), Some("1st class + Business"));
    assert_eq!(Lang::De.class_label("TW_B_1").as_deref(), Some("Business + 1. Klasse"));
    assert_eq!(Lang::De.class_label("W_2").as_deref(), Some("2. Klasse"));
    // The vehicle prefix is never a class, even when it reads like one.
    assert_eq!(Lang::De.class_label("1"), None);
    assert_eq!(Lang::De.class_label(""), None);
}

#[test]
fn car_type_label_takes_first_known() {
    let types = vec!["engine".to_string(), "couchette".to_string(), "sleeper".to_string()];
    assert_eq!(Lang::De.car_type_label(&types), Some("🛌 Liegewagen"));
    assert_eq!(Lang::En.car_type_label(&["restaurant".to_string()]), Some("🍽️ Restaurant"));
    assert_eq!(Lang::En.car_type_label(&[]), None);
}

#[test]
fn icon_labels_all_known() {
    assert_eq!(Lang::En.icon_label("bicycle"), "🚲 Bicycle");
    assert_eq!(Lang::De.icon_label("disabled"), "♿ Rollstuhl");
    assert_eq!(Lang::De.icon_label("bistro"), "🍽️ Bistro");
    assert_eq!(Lang::En.icon_label("motherchild"), "👪 Family");
    assert_eq!(Lang::De.icon_label("silence"), "🔇 Ruhe");
}

#[test]
fn tables_differ_by_language() {
    assert_eq!(Lang::De.tr().departures, "ABFAHRTEN");
    assert_eq!(Lang::En.tr().departures, "DEPARTURES");
    assert_eq!(Lang::En.tr().hint_arr, "rr");
    assert_eq!(Lang::De.tr().hint_arr, "nk");
}

#[test]
fn detect_from_locale_values() {
    assert_eq!(Lang::detect(&vec![None, None, None]), Lang::De);
    assert_eq!(Lang::detect(&vec![None, None, Some("en_US.UTF-8".to_string())]), Lang::En);
    assert_eq!(Lang::detect(&vec![Some("".to_string()), Some("EN_GB".to_string()), None]), Lang::En);
    assert_eq!(Lang::detect(&vec![Some("de_AT.UTF-8".to_string()), Some("en_US".to_string()), None]), Lang::De);
    assert_eq!(Lang::detect(&vec![Some("C".to_string()), None, None]), Lang::De);
}

#[test]
fn initial_prefers_saved() {
    assert_eq!(Lang::initial(Some(Lang::En), Lang::De), Lang::En);
    assert_eq!(Lang::initial(None, Lang::En), Lang::En);
}

#[test]
fn config_roundtrip() {
    for l in [Lang::De, Lang::En] {
        assert_eq!(parse_config(&config_text(l)), Some(l));
    }
    assert_eq!(config_text(Lang::En), "language = en\n");
}

#[test]
fn config_parse_variants() {
    assert_eq!(parse_config("language=EN"), Some(Lang::En));
    assert_eq!(parse_config("# comment\r\n  language =  de  \r\n"), Some(Lang::De));
    assert_eq!(parse_config("language = fr\nlanguage = en\n"), Some(Lang::En));
    assert_eq!(parse_config("lang = en"), None);
    assert_eq!(parse_config("language en"), None);
    assert_eq!(parse_config(""), None);
}

#[test]
fn flags_found() {
    let args = vec!["oebb-monitor".to_string(), "-d".to_string()];
    assert!(has_flag(&args, "--debug", "-d"));
    assert!(!has_flag(&args, "--version", "-V"));
}
