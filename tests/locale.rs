use voice_catalog::locale::get_language_display_name;

#[test]
fn known_locales_resolve() {
    assert_eq!(get_language_display_name("en-US"), "English (US)");
    assert_eq!(get_language_display_name("af-ZA"), "Afrikaans (South Africa)");
    assert_eq!(get_language_display_name("ar-XA"), "Arabic");
    assert_eq!(get_language_display_name("cmn-TW"), "Mandarin Chinese (Taiwan)");
    assert_eq!(get_language_display_name("vi-VN"), "Vietnamese (Vietnam)");
}

#[test]
fn unknown_locale_is_unchanged() {
    assert_eq!(get_language_display_name("zz-ZZ"), "zz-ZZ");
    assert_eq!(get_language_display_name(""), "");
    assert_eq!(get_language_display_name("en-us"), "en-us");
    assert_eq!(get_language_display_name("en-US "), "en-US ");
}

#[test]
fn resolving_twice_gives_same_label() {
    for code in ["en-US", "zz-ZZ", "yue-HK", "English (US)"] {
        let a = get_language_display_name(code);
        let b = get_language_display_name(code);
        assert_eq!(a, b);
        assert_eq!(get_language_display_name(&a), a);
    }
}
