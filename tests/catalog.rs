use voice_catalog::catalog::{
    build_catalog, catalog_entry, compose_display_name, display_name, has_tier_marker_in,
    is_listed, language_stem_of, technology_tier, CatalogVoice, RawVoice,
};
use voice_catalog::gender::Gender;

fn raw(name: &str, codes: &[&str], gender: i32) -> RawVoice {
    RawVoice {
        name: name.to_string(),
        language_codes: codes.iter().map(|c| c.to_string()).collect(),
        ssml_gender: gender,
    }
}

#[test]
fn wavenet_kept_experimental_dropped() {
    let raws = vec![
        raw("en-US-Wavenet-D", &["en-US"], 1),
        raw("en-US-Experimental-A", &["en-US"], 2),
    ];
    let previews = vec![String::new(), String::new()];
    let out: Vec<CatalogVoice> = build_catalog(&raws, &previews);
    assert_eq!(out.len(), 1);
    let v = &out[0];
    assert_eq!(v.name, "en-US-Wavenet-D");
    assert_eq!(v.language_name, "English (US)");
    assert_eq!(v.gender, Gender::Male);
    assert_eq!(v.gender.label(), "Male");
    assert_eq!(v.technology, "Wavenet");
    assert_eq!(v.display_name, "English D");
    assert_eq!(v.language_codes, vec!["en-US".to_string()]);
    assert_eq!(v.preview_path, "");
}

#[test]
fn catalog_keeps_provider_order_and_previews() {
    let raws = vec![
        raw("fr-FR-Standard-A", &["fr-FR"], 2),
        raw("de-DE-Studio-B", &["de-DE"], 1),
        raw("en-GB-Neural2-C", &["en-GB"], 9),
        raw("en-US-Polyglot-1", &["en-US"], 1),
    ];
    let previews = vec![
        "/res/voice_fr-FR-Standard-A.mp3".to_string(),
        "/res/voice_de-DE-Studio-B.mp3".to_string(),
        String::new(),
        "/res/voice_en-US-Polyglot-1.mp3".to_string(),
    ];
    let out = build_catalog(&raws, &previews);
    let names: Vec<&str> = out.iter().map(|v| v.name.as_str()).collect();
    assert_eq!(names, vec!["fr-FR-Standard-A", "en-GB-Neural2-C", "en-US-Polyglot-1"]);
    assert_eq!(out[0].preview_path, "/res/voice_fr-FR-Standard-A.mp3");
    assert_eq!(out[0].display_name, "French A");
    assert_eq!(out[1].preview_path, "");
    assert_eq!(out[1].gender, Gender::Neutral);
    assert_eq!(out[1].language_name, "English (UK)");
    assert_eq!(out[2].technology, "Polyglot");
    assert_eq!(out[2].display_name, "English 1");
}

#[test]
fn unlisted_identifiers_never_appear() {
    let raws = vec![raw("en-US-Studio-O", &["en-US"], 1), raw("en-US-News-K", &["en-US"], 2)];
    let previews = vec![String::new(), String::new()];
    assert!(build_catalog(&raws, &previews).is_empty());
}

#[test]
fn empty_voice_list_gives_empty_catalog() {
    let out = build_catalog(&Vec::new(), &Vec::new());
    assert!(out.is_empty());
}

#[test]
fn listing_ignores_case() {
    assert!(is_listed("en-US-WAVENET-A"));
    assert!(is_listed("en-US-NeUrAl2-A"));
    assert!(is_listed("standard"));
    assert!(is_listed("x-polyglot"));
    assert!(!is_listed("en-US-Experimental-A"));
    assert!(!is_listed(""));
    assert!(!is_listed("neural-2"));
}

#[test]
fn tier_marker_needs_lowered_text() {
    assert!(has_tier_marker_in("en-us-wavenet-a"));
    assert!(!has_tier_marker_in("en-US-WAVENET-A"));
    assert!(!has_tier_marker_in("wavene"));
}

#[test]
fn technology_is_third_piece() {
    assert_eq!(technology_tier("en-US-Neural2-C"), "Neural2");
    assert_eq!(technology_tier("xx"), "Standard");
    assert_eq!(technology_tier("en-US"), "Standard");
    assert_eq!(technology_tier("a--c"), "c");
    assert_eq!(technology_tier("a-b--"), "");
    assert_eq!(technology_tier("en-US-Wavenet"), "Wavenet");
}

#[test]
fn display_name_from_stem_and_suffix() {
    assert_eq!(display_name("en-US-Wavenet-D", "English (US)"), "English D");
    assert_eq!(display_name("cmn-CN-Wavenet-A", "Mandarin Chinese (China)"), "Mandarin Chinese A");
    assert_eq!(display_name("zz-ZZ-Standard-B", "zz-ZZ"), "zz-ZZ B");
    assert_eq!(display_name("xx", "  padded name  "), "padded name xx");
    assert_eq!(display_name("a-b-", "Arabic"), "Arabic ");
}

#[test]
fn stem_and_composition() {
    assert_eq!(language_stem_of("English (US)"), "English ");
    assert_eq!(language_stem_of("Arabic"), "Arabic");
    assert_eq!(language_stem_of("(x)"), "");
    assert_eq!(compose_display_name("English", "en-US-Wavenet-D"), "English D");
}

#[test]
fn entry_without_locales() {
    let v = catalog_entry(&raw("xx-Standard", &[], 3), "p".to_string());
    assert_eq!(v.language_name, "");
    assert_eq!(v.display_name, " Standard");
    assert_eq!(v.technology, "Standard");
    assert_eq!(v.gender, Gender::Neutral);
    assert_eq!(v.preview_path, "p");
    assert!(v.language_codes.is_empty());
}
