//! Human-readable names of the provider's locale identifiers.

use crate::text::same_chars;
use vstd::prelude::*;
use vstd::string::*;

verus! {

/// `a` when it holds a value, else `b`.
pub open spec fn first_some(a: Option<Seq<char>>, b: Option<Seq<char>>) -> Option<Seq<char>> {
    match a {
        Some(x) => Some(x),
        None => b,
    }
}

/// The characters of an optional string.
pub open spec fn opt_chars(r: Option<String>) -> Option<Seq<char>> {
    match r {
        Some(s) => Some(s@),
        None => None,
    }
}

/// The label of a locale identifier that the table knows, or `None`.
pub open spec fn known_locale_label(code: Seq<char>) -> Option<Seq<char>> {
    first_some(locale_group_0(code), first_some(locale_group_1(code), first_some(locale_group_2(code), first_some(locale_group_3(code), first_some(locale_group_4(code), first_some(locale_group_5(code), None))))))
}

/// The label shown for a locale identifier: the table's label when it has
/// one, the identifier itself otherwise.
pub open spec fn locale_label(code: Seq<char>) -> Seq<char> {
    match known_locale_label(code) {
        Some(label) => label,
        None => code,
    }
}

pub open spec fn locale_group_0(code: Seq<char>) -> Option<Seq<char>> {
    if code == "af-ZA"@ {
        Some("Afrikaans (South Africa)"@)
    } else if code == "ar-XA"@ {
        Some("Arabic"@)
    } else if code == "eu-ES"@ {
        Some("Basque (Spain)"@)
    } else if code == "bn-IN"@ {
        Some("Bengali (India)"@)
    } else if code == "bg-BG"@ {
        Some("Bulgarian (Bulgaria)"@)
    } else if code == "ca-ES"@ {
        Some("Catalan (Spain)"@)
    } else if code == "yue-HK"@ {
        Some("Chinese (Hong Kong)"@)
    } else if code == "cs-CZ"@ {
        Some("Czech (Czech Republic)"@)
    } else if code == "da-DK"@ {
        Some("Danish (Denmark)"@)
    } else if code == "nl-BE"@ {
        Some("Dutch (Belgium)"@)
    } else {
        None
    }
}

fn lookup_locale_group_0(lang_code: &str) -> (r: Option<String>)
    ensures
        opt_chars(r) == locale_group_0(lang_code@),
{
    if same_chars(lang_code, "af-ZA") {
        return Some(String::from_str("Afrikaans (South Africa)"));
    }
    if same_chars(lang_code, "ar-XA") {
        return Some(String::from_str("Arabic"));
    }
    if same_chars(lang_code, "eu-ES") {
        return Some(String::from_str("Basque (Spain)"));
    }
    if same_chars(lang_code, "bn-IN") {
        return Some(String::from_str("Bengali (India)"));
    }
    if same_chars(lang_code, "bg-BG") {
        return Some(String::from_str("Bulgarian (Bulgaria)"));
    }
    if same_chars(lang_code, "ca-ES") {
        return Some(String::from_str("Catalan (Spain)"));
    }
    if same_chars(lang_code, "yue-HK") {
        return Some(String::from_str("Chinese (Hong Kong)"));
    }
    if same_chars(lang_code, "cs-CZ") {
        return Some(String::from_str("Czech (Czech Republic)"));
    }
    if same_chars(lang_code, "da-DK") {
        return Some(String::from_str("Danish (Denmark)"));
    }
    if same_chars(lang_code, "nl-BE") {
        return Some(String::from_str("Dutch (Belgium)"));
    }
    None
}

pub open spec fn locale_group_1(code: Seq<char>) -> Option<Seq<char>> {
    if code == "nl-NL"@ {
        Some("Dutch (Netherlands)"@)
    } else if code == "en-AU"@ {
        Some("English (Australia)"@)
    } else if code == "en-IN"@ {
        Some("English (India)"@)
    } else if code == "en-GB"@ {
        Some("English (UK)"@)
    } else if code == "en-US"@ {
        Some("English (US)"@)
    } else if code == "fil-PH"@ {
        Some("Filipino (Philippines)"@)
    } else if code == "fi-FI"@ {
        Some("Finnish (Finland)"@)
    } else if code == "fr-CA"@ {
        Some("French (Canada)"@)
    } else if code == "fr-FR"@ {
        Some("French (France)"@)
    } else if code == "gl-ES"@ {
        Some("Galician (Spain)"@)
    } else {
        None
    }
}

fn lookup_locale_group_1(lang_code: &str) -> (r: Option<String>)
    ensures
        opt_chars(r) == locale_group_1(lang_code@),
{
    if same_chars(lang_code, "nl-NL") {
        return Some(String::from_str("Dutch (Netherlands)"));
    }
    if same_chars(lang_code, "en-AU") {
        return Some(String::from_str("English (Australia)"));
    }
    if same_chars(lang_code, "en-IN") {
        return Some(String::from_str("English (India)"));
    }
    if same_chars(lang_code, "en-GB") {
        return Some(String::from_str("English (UK)"));
    }
    if same_chars(lang_code, "en-US") {
        return Some(String::from_str("English (US)"));
    }
    if same_chars(lang_code, "fil-PH") {
        return Some(String::from_str("Filipino (Philippines)"));
    }
    if same_chars(lang_code, "fi-FI") {
        return Some(String::from_str("Finnish (Finland)"));
    }
    if same_chars(lang_code, "fr-CA") {
        return Some(String::from_str("French (Canada)"));
    }
    if same_chars(lang_code, "fr-FR") {
        return Some(String::from_str("French (France)"));
    }
    if same_chars(lang_code, "gl-ES") {
        return Some(String::from_str("Galician (Spain)"));
    }
    None
}

pub open spec fn locale_group_2(code: Seq<char>) -> Option<Seq<char>> {
    if code == "de-DE"@ {
        Some("German (Germany)"@)
    } else if code == "el-GR"@ {
        Some("Greek (Greece)"@)
    } else if code == "gu-IN"@ {
        Some("Gujarati (India)"@)
    } else if code == "he-IL"@ {
        Some("Hebrew (Israel)"@)
    } else if code == "hi-IN"@ {
        Some("Hindi (India)"@)
    } else if code == "hu-HU"@ {
        Some("Hungarian (Hungary)"@)
    } else if code == "is-IS"@ {
        Some("Icelandic (Iceland)"@)
    } else if code == "id-ID"@ {
        Some("Indonesian (Indonesia)"@)
    } else if code == "it-IT"@ {
        Some("Italian (Italy)"@)
    } else if code == "ja-JP"@ {
        Some("Japanese (Japan)"@)
    } else {
        None
    }
}

fn lookup_locale_group_2(lang_code: &str) -> (r: Option<String>)
    ensures
        opt_chars(r) == locale_group_2(lang_code@),
{
    if same_chars(lang_code, "de-DE") {
        return Some(String::from_str("German (Germany)"));
    }
    if same_chars(lang_code, "el-GR") {
        return Some(String::from_str("Greek (Greece)"));
    }
    if same_chars(lang_code, "gu-IN") {
        return Some(String::from_str("Gujarati (India)"));
    }
    if same_chars(lang_code, "he-IL") {
        return Some(String::from_str("Hebrew (Israel)"));
    }
    if same_chars(lang_code, "hi-IN") {
        return Some(String::from_str("Hindi (India)"));
    }
    if same_chars(lang_code, "hu-HU") {
        return Some(String::from_str("Hungarian (Hungary)"));
    }
    if same_chars(lang_code, "is-IS") {
        return Some(String::from_str("Icelandic (Iceland)"));
    }
    if same_chars(lang_code, "id-ID") {
        return Some(String::from_str("Indonesian (Indonesia)"));
    }
    if same_chars(lang_code, "it-IT") {
        return Some(String::from_str("Italian (Italy)"));
    }
    if same_chars(lang_code, "ja-JP") {
        return Some(String::from_str("Japanese (Japan)"));
    }
    None
}

pub open spec fn locale_group_3(code: Seq<char>) -> Option<Seq<char>> {
    if code == "kn-IN"@ {
        Some("Kannada (India)"@)
    } else if code == "ko-KR"@ {
        Some("Korean (South Korea)"@)
    } else if code == "lv-LV"@ {
        Some("Latvian (Latvia)"@)
    } else if code == "lt-LT"@ {
        Some("Lithuanian (Lithuania)"@)
    } else if code == "ms-MY"@ {
        Some("Malay (Malaysia)"@)
    } else if code == "ml-IN"@ {
        Some("Malayalam (India)"@)
    } else if code == "cmn-CN"@ {
        Some("Mandarin Chinese (China)"@)
    } else if code == "cmn-TW"@ {
        Some("Mandarin Chinese (Taiwan)"@)
    } else if code == "mr-IN"@ {
        Some("Marathi (India)"@)
    } else if code == "nb-NO"@ {
        Some("Norwegian (Norway)"@)
    } else {
        None
    }
}

fn lookup_locale_group_3(lang_code: &str) -> (r: Option<String>)
    ensures
        opt_chars(r) == locale_group_3(lang_code@),
{
    if same_chars(lang_code, "kn-IN") {
        return Some(String::from_str("Kannada (India)"));
    }
    if same_chars(lang_code, "ko-KR") {
        return Some(String::from_str("Korean (South Korea)"));
    }
    if same_chars(lang_code, "lv-LV") {
        return Some(String::from_str("Latvian (Latvia)"));
    }
    if same_chars(lang_code, "lt-LT") {
        return Some(String::from_str("Lithuanian (Lithuania)"));
    }
    if same_chars(lang_code, "ms-MY") {
        return Some(String::from_str("Malay (Malaysia)"));
    }
    if same_chars(lang_code, "ml-IN") {
        return Some(String::from_str("Malayalam (India)"));
    }
    if same_chars(lang_code, "cmn-CN") {
        return Some(String::from_str("Mandarin Chinese (China)"));
    }
    if same_chars(lang_code, "cmn-TW") {
        return Some(String::from_str("Mandarin Chinese (Taiwan)"));
    }
    if same_chars(lang_code, "mr-IN") {
        return Some(String::from_str("Marathi (India)"));
    }
    if same_chars(lang_code, "nb-NO") {
        return Some(String::from_str("Norwegian (Norway)"));
    }
    None
}

pub open spec fn locale_group_4(code: Seq<char>) -> Option<Seq<char>> {
    if code == "pl-PL"@ {
        Some("Polish (Poland)"@)
    } else if code == "pt-BR"@ {
        Some("Portuguese (Brazil)"@)
    } else if code == "pt-PT"@ {
        Some("Portuguese (Portugal)"@)
    } else if code == "pa-IN"@ {
        Some("Punjabi (India)"@)
    } else if code == "ro-RO"@ {
        Some("Romanian (Romania)"@)
    } else if code == "ru-RU"@ {
        Some("Russian (Russia)"@)
    } else if code == "sr-RS"@ {
        Some("Serbian (Serbia)"@)
    } else if code == "sk-SK"@ {
        Some("Slovak (Slovakia)"@)
    } else if code == "es-ES"@ {
        Some("Spanish (Spain)"@)
    } else if code == "es-US"@ {
        Some("Spanish (US)"@)
    } else {
        None
    }
}

fn lookup_locale_group_4(lang_code: &str) -> (r: Option<String>)
    ensures
        opt_chars(r) == locale_group_4(lang_code@),
{
    if same_chars(lang_code, "pl-PL") {
        return Some(String::from_str("Polish (Poland)"));
    }
    if same_chars(lang_code, "pt-BR") {
        return Some(String::from_str("Portuguese (Brazil)"));
    }
    if same_chars(lang_code, "pt-PT") {
        return Some(String::from_str("Portuguese (Portugal)"));
    }
    if same_chars(lang_code, "pa-IN") {
        return Some(String::from_str("Punjabi (India)"));
    }
    if same_chars(lang_code, "ro-RO") {
        return Some(String::from_str("Romanian (Romania)"));
    }
    if same_chars(lang_code, "ru-RU") {
        return Some(String::from_str("Russian (Russia)"));
    }
    if same_chars(lang_code, "sr-RS") {
        return Some(String::from_str("Serbian (Serbia)"));
    }
    if same_chars(lang_code, "sk-SK") {
        return Some(String::from_str("Slovak (Slovakia)"));
    }
    if same_chars(lang_code, "es-ES") {
        return Some(String::from_str("Spanish (Spain)"));
    }
    if same_chars(lang_code, "es-US") {
        return Some(String::from_str("Spanish (US)"));
    }
    None
}

pub open spec fn locale_group_5(code: Seq<char>) -> Option<Seq<char>> {
    if code == "sv-SE"@ {
        Some("Swedish (Sweden)"@)
    } else if code == "ta-IN"@ {
        Some("Tamil (India)"@)
    } else if code == "te-IN"@ {
        Some("Telugu (India)"@)
    } else if code == "th-TH"@ {
        Some("Thai (Thailand)"@)
    } else if code == "tr-TR"@ {
        Some("Turkish (Turkey)"@)
    } else if code == "uk-UA"@ {
        Some("Ukrainian (Ukraine)"@)
    } else if code == "vi-VN"@ {
        Some("Vietnamese (Vietnam)"@)
    } else {
        None
    }
}

fn lookup_locale_group_5(lang_code: &str) -> (r: Option<String>)
    ensures
        opt_chars(r) == locale_group_5(lang_code@),
{
    if same_chars(lang_code, "sv-SE") {
        return Some(String::from_str("Swedish (Sweden)"));
    }
    if same_chars(lang_code, "ta-IN") {
        return Some(String::from_str("Tamil (India)"));
    }
    if same_chars(lang_code, "te-IN") {
        return Some(String::from_str("Telugu (India)"));
    }
    if same_chars(lang_code, "th-TH") {
        return Some(String::from_str("Thai (Thailand)"));
    }
    if same_chars(lang_code, "tr-TR") {
        return Some(String::from_str("Turkish (Turkey)"));
    }
    if same_chars(lang_code, "uk-UA") {
        return Some(String::from_str("Ukrainian (Ukraine)"));
    }
    if same_chars(lang_code, "vi-VN") {
        return Some(String::from_str("Vietnamese (Vietnam)"));
    }
    None
}

/// Resolves a locale identifier to its human-readable label. Any string is
/// accepted; an identifier missing from the table comes back unchanged.
pub fn get_language_display_name(lang_code: &str) -> (r: String)
    ensures
        r@ == locale_label(lang_code@),
{
    if let Some(label) = lookup_locale_group_0(lang_code) {
        return label;
    }
    if let Some(label) = lookup_locale_group_1(lang_code) {
        return label;
    }
    if let Some(label) = lookup_locale_group_2(lang_code) {
        return label;
    }
    if let Some(label) = lookup_locale_group_3(lang_code) {
        return label;
    }
    if let Some(label) = lookup_locale_group_4(lang_code) {
        return label;
    }
    if let Some(label) = lookup_locale_group_5(lang_code) {
        return label;
    }
    lang_code.to_owned()
}

/// Resolving a locale identifier depends on the identifier alone: two
/// resolutions of equal identifiers give equal labels.
pub proof fn locale_label_deterministic(a: Seq<char>, b: Seq<char>)
    requires
        a == b,
    ensures
        locale_label(a) == locale_label(b),
{
}

/// Resolution is idempotent: resolving a label again gives the label back,
/// since no label of the table is itself an identifier of it.
pub proof fn locale_label_idempotent(code: Seq<char>)
    ensures
        locale_label(locale_label(code)) == locale_label(code),
{
    if let Some(label) = known_locale_label(code) {
        reveal_strlit("Afrikaans (South Africa)");
        reveal_strlit("Arabic");
        reveal_strlit("Basque (Spain)");
        reveal_strlit("Bengali (India)");
        reveal_strlit("Bulgarian (Bulgaria)");
        reveal_strlit("Catalan (Spain)");
        reveal_strlit("Chinese (Hong Kong)");
        reveal_strlit("Czech (Czech Republic)");
        reveal_strlit("Danish (Denmark)");
        reveal_strlit("Dutch (Belgium)");
        reveal_strlit("Dutch (Netherlands)");
        reveal_strlit("English (Australia)");
        reveal_strlit("English (India)");
        reveal_strlit("English (UK)");
        reveal_strlit("English (US)");
        reveal_strlit("Filipino (Philippines)");
        reveal_strlit("Finnish (Finland)");
        reveal_strlit("French (Canada)");
        reveal_strlit("French (France)");
        reveal_strlit("Galician (Spain)");
        reveal_strlit("German (Germany)");
        reveal_strlit("Greek (Greece)");
        reveal_strlit("Gujarati (India)");
        reveal_strlit("Hebrew (Israel)");
        reveal_strlit("Hindi (India)");
        reveal_strlit("Hungarian (Hungary)");
        reveal_strlit("Icelandic (Iceland)");
        reveal_strlit("Indonesian (Indonesia)");
        reveal_strlit("Italian (Italy)");
        reveal_strlit("Japanese (Japan)");
        reveal_strlit("Kannada (India)");
        reveal_strlit("Korean (South Korea)");
        reveal_strlit("Latvian (Latvia)");
        reveal_strlit("Lithuanian (Lithuania)");
        reveal_strlit("Malay (Malaysia)");
        reveal_strlit("Malayalam (India)");
        reveal_strlit("Mandarin Chinese (China)");
        reveal_strlit("Mandarin Chinese (Taiwan)");
        reveal_strlit("Marathi (India)");
        reveal_strlit("Norwegian (Norway)");
        reveal_strlit("Polish (Poland)");
        reveal_strlit("Portuguese (Brazil)");
        reveal_strlit("Portuguese (Portugal)");
        reveal_strlit("Punjabi (India)");
        reveal_strlit("Romanian (Romania)");
        reveal_strlit("Russian (Russia)");
        reveal_strlit("Serbian (Serbia)");
        reveal_strlit("Slovak (Slovakia)");
        reveal_strlit("Spanish (Spain)");
        reveal_strlit("Spanish (US)");
        reveal_strlit("Swedish (Sweden)");
        reveal_strlit("Tamil (India)");
        reveal_strlit("Telugu (India)");
        reveal_strlit("Thai (Thailand)");
        reveal_strlit("Turkish (Turkey)");
        reveal_strlit("Ukrainian (Ukraine)");
        reveal_strlit("Vietnamese (Vietnam)");
        assert(label.len() > 6 || label[3] != '-');
        label_is_not_a_code(label);
    }
}

/// Every identifier of the table has at most six characters, and one of six
/// has a dash at position 3; a string otherwise shaped is no identifier.
proof fn label_is_not_a_code(s: Seq<char>)
    requires
        s.len() > 6 || (s.len() == 6 && s[3] != '-'),
    ensures
        known_locale_label(s) is None,
{
    reveal_strlit("af-ZA");
    reveal_strlit("ar-XA");
    reveal_strlit("eu-ES");
    reveal_strlit("bn-IN");
    reveal_strlit("bg-BG");
    reveal_strlit("ca-ES");
    reveal_strlit("yue-HK");
    reveal_strlit("cs-CZ");
    reveal_strlit("da-DK");
    reveal_strlit("nl-BE");
    reveal_strlit("nl-NL");
    reveal_strlit("en-AU");
    reveal_strlit("en-IN");
    reveal_strlit("en-GB");
    reveal_strlit("en-US");
    reveal_strlit("fil-PH");
    reveal_strlit("fi-FI");
    reveal_strlit("fr-CA");
    reveal_strlit("fr-FR");
    reveal_strlit("gl-ES");
    reveal_strlit("de-DE");
    reveal_strlit("el-GR");
    reveal_strlit("gu-IN");
    reveal_strlit("he-IL");
    reveal_strlit("hi-IN");
    reveal_strlit("hu-HU");
    reveal_strlit("is-IS");
    reveal_strlit("id-ID");
    reveal_strlit("it-IT");
    reveal_strlit("ja-JP");
    reveal_strlit("kn-IN");
    reveal_strlit("ko-KR");
    reveal_strlit("lv-LV");
    reveal_strlit("lt-LT");
    reveal_strlit("ms-MY");
    reveal_strlit("ml-IN");
    reveal_strlit("cmn-CN");
    reveal_strlit("cmn-TW");
    reveal_strlit("mr-IN");
    reveal_strlit("nb-NO");
    reveal_strlit("pl-PL");
    reveal_strlit("pt-BR");
    reveal_strlit("pt-PT");
    reveal_strlit("pa-IN");
    reveal_strlit("ro-RO");
    reveal_strlit("ru-RU");
    reveal_strlit("sr-RS");
    reveal_strlit("sk-SK");
    reveal_strlit("es-ES");
    reveal_strlit("es-US");
    reveal_strlit("sv-SE");
    reveal_strlit("ta-IN");
    reveal_strlit("te-IN");
    reveal_strlit("th-TH");
    reveal_strlit("tr-TR");
    reveal_strlit("uk-UA");
    reveal_strlit("vi-VN");
}

/// An identifier that the table does not know resolves to itself.
pub proof fn unknown_locale_passes_through(code: Seq<char>)
    requires
        known_locale_label(code) is None,
    ensures
        locale_label(code) == code,
{
}

} // verus!
