use voice_catalog::error::VoiceError;
use voice_catalog::preview::{
    preview_fetch_result, preview_file_name, preview_resource_path, PREVIEW_CACHE_DIR,
};

#[test]
fn preview_paths_follow_naming_scheme() {
    assert_eq!(preview_file_name("en-US-Wavenet-D"), "voice_en-US-Wavenet-D.mp3");
    assert_eq!(
        preview_resource_path("en-US-Wavenet-D"),
        "../resources/preview_cache/voice_en-US-Wavenet-D.mp3"
    );
    assert_eq!(preview_file_name(""), "voice_.mp3");
    assert_eq!(PREVIEW_CACHE_DIR, "preview_cache");
}

#[test]
fn preview_paths_are_deterministic() {
    assert_eq!(preview_resource_path("fr-FR-Standard-A"), preview_resource_path("fr-FR-Standard-A"));
    assert_eq!(preview_file_name("x"), preview_file_name("x"));
}

#[test]
fn missing_preview_names_the_file() {
    match preview_fetch_result("no-such-Voice", None) {
        Err(VoiceError::PreviewNotFound(f)) => assert_eq!(f, "voice_no-such-Voice.mp3"),
        _ => panic!("expected a missing preview"),
    }
    let e = preview_fetch_result("no-such-Voice", None).unwrap_err();
    assert_eq!(e.message(), "Voice preview file not found: voice_no-such-Voice.mp3");
}

#[test]
fn preview_bytes_pass_through() {
    let r = preview_fetch_result("v", Some(Ok(vec![0xff, 0xfb, 0x90, 0])));
    assert_eq!(r.ok(), Some(vec![0xff, 0xfb, 0x90, 0]));
}

#[test]
fn preview_read_failure_is_io_failure() {
    match preview_fetch_result("v", Some(Err("permission denied".to_string()))) {
        Err(VoiceError::IoFailure(m)) => assert_eq!(m, "permission denied"),
        _ => panic!("expected an I/O failure"),
    }
}
