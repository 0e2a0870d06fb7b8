use openlogi::locale::{match_supported, resolve, special_locale, supported, supported_code};

#[test]
fn chinese_resolves_by_script_then_region() {
    assert_eq!(special_locale("zh", Some("Hans"), Some("CN")), Some("zh-CN"));
    assert_eq!(special_locale("zh", None, Some("CN")), Some("zh-CN"));
    assert_eq!(special_locale("zh", Some("Hans"), Some("HK")), Some("zh-CN"));
    assert_eq!(special_locale("zh", Some("Hant"), Some("TW")), Some("zh-TW"));
    assert_eq!(special_locale("zh", None, Some("TW")), Some("zh-TW"));
    assert_eq!(special_locale("zh", Some("Hant"), None), Some("zh-TW"));
    assert_eq!(special_locale("zh", None, Some("HK")), Some("zh-HK"));
    assert_eq!(special_locale("zh", Some("Hant"), Some("HK")), Some("zh-HK"));
    assert_eq!(special_locale("zh", None, Some("MO")), Some("zh-HK"));
    assert_eq!(special_locale("zh", None, None), Some("zh-CN"));
}

#[test]
fn portuguese_and_norwegian_fold_onto_their_catalogs() {
    assert_eq!(special_locale("pt", None, None), Some("pt-PT"));
    assert_eq!(special_locale("pt", None, Some("PT")), Some("pt-PT"));
    assert_eq!(special_locale("pt", None, Some("BR")), Some("pt-BR"));
    assert_eq!(special_locale("nb", None, Some("NO")), Some("nb"));
    assert_eq!(special_locale("no", None, None), Some("nb"));
    assert_eq!(special_locale("nn", None, None), Some("nb"));
    assert_eq!(special_locale("ja", None, Some("JP")), None);
    assert_eq!(special_locale("klingon", None, None), None);
}

#[test]
fn shipped_codes_are_found_exactly() {
    assert_eq!(supported().len(), 23);
    assert_eq!(supported()[0], ("be", "Беларуская"));
    assert_eq!(supported_code("en"), Some("en"));
    assert_eq!(supported_code("zh-TW"), Some("zh-TW"));
    assert_eq!(supported_code("en-US"), None);
    assert_eq!(supported_code("pt"), None);
}

#[test]
fn maps_locale_variants() {
    assert_eq!(match_supported("zh-Hans-CN"), Some("zh-CN"));
    assert_eq!(match_supported("zh-CN"), Some("zh-CN"));
    assert_eq!(match_supported("zh-Hans-HK"), Some("zh-CN"));
    assert_eq!(match_supported("zh-Hant-TW"), Some("zh-TW"));
    assert_eq!(match_supported("zh-TW"), Some("zh-TW"));
    assert_eq!(match_supported("zh-Hant"), Some("zh-TW"));
    assert_eq!(match_supported("zh-HK"), Some("zh-HK"));
    assert_eq!(match_supported("zh-Hant-HK"), Some("zh-HK"));
    assert_eq!(match_supported("ja"), Some("ja"));
    assert_eq!(match_supported("ja-JP"), Some("ja"));
    assert_eq!(match_supported("ru"), Some("ru"));
    assert_eq!(match_supported("ru-RU"), Some("ru"));
    assert_eq!(match_supported("uk"), Some("uk"));
    assert_eq!(match_supported("uk-UA"), Some("uk"));
    assert_eq!(match_supported("en-US"), Some("en"));
    assert_eq!(match_supported("it"), Some("it"));
    assert_eq!(match_supported("it-IT"), Some("it"));
    assert_eq!(match_supported("fr-FR"), Some("fr"));
    assert_eq!(match_supported("de"), Some("de"));
    assert_eq!(match_supported("ko-KR"), Some("ko"));
    assert_eq!(match_supported("pt"), Some("pt-PT"));
    assert_eq!(match_supported("pt-PT"), Some("pt-PT"));
    assert_eq!(match_supported("pt-BR"), Some("pt-BR"));
    assert_eq!(match_supported("tr"), Some("tr"));
    assert_eq!(match_supported("tr-TR"), Some("tr"));
    assert_eq!(match_supported("nb-NO"), Some("nb"));
    assert_eq!(match_supported("no"), Some("nb"));
    assert_eq!(match_supported("nn"), Some("nb"));
    assert_eq!(match_supported("be"), Some("be"));
    assert_eq!(match_supported("be-BY"), Some("be"));
    assert_eq!(match_supported("klingon"), None);
}

#[test]
fn explicit_setting_wins_over_system() {
    assert_eq!(resolve(Some("zh-CN"), Some("fr-FR")), "zh-CN");
    // An unknown stored code falls through to system/`en`, never panics.
    assert!(supported()
        .iter()
        .any(|(c, _)| *c == resolve(Some("klingon"), Some("fr-FR"))));
}

#[test]
fn underscores_read_as_dashes() {
    assert_eq!(match_supported("pt_BR"), Some("pt-BR"));
    assert_eq!(match_supported("zh_Hant_HK"), Some("zh-HK"));
    assert_eq!(match_supported("en_GB"), Some("en"));
}

#[test]
fn unknown_setting_follows_system_then_english() {
    assert_eq!(resolve(Some("klingon"), Some("de-AT")), "de");
    assert_eq!(resolve(None, Some("ja-JP")), "ja");
    assert_eq!(resolve(Some("klingon"), Some("klingon")), "en");
    assert_eq!(resolve(None, None), "en");
}
