use voice_catalog::error::VoiceError;
use voice_catalog::gender::Gender;
use voice_catalog::synthesis::{build_synthesis_request, synthesis_result, AudioFormat};

#[test]
fn request_keeps_text_and_fixes_policy() {
    let text = "  Héllo, wörld!\n<speak>".to_string();
    let r = build_synthesis_request("en-US-Wavenet-D".to_string(), "en-US".to_string(), text.clone());
    assert_eq!(r.text, text);
    assert_eq!(r.voice_name, "en-US-Wavenet-D");
    assert_eq!(r.language_code, "en-US");
    assert_eq!(r.gender, Gender::Unspecified);
    assert_eq!(r.audio_format, AudioFormat::Mp3);
    assert_eq!(r.speaking_rate_percent, 100);
    assert_eq!(r.pitch_semitones, 0);
    assert_eq!(r.volume_gain_db, 0);
    assert_eq!(r.sample_rate_hertz, 0);
}

#[test]
fn request_forwards_empty_text() {
    let r = build_synthesis_request(String::new(), String::new(), String::new());
    assert_eq!(r.text, "");
    assert_eq!(r.voice_name, "");
}

#[test]
fn synthesized_audio_passes_through() {
    let audio = vec![1u8, 2, 3, 255, 0];
    assert_eq!(synthesis_result(Ok(audio.clone())).ok(), Some(audio));
    assert_eq!(synthesis_result(Ok(Vec::new())).ok(), Some(Vec::new()));
}

#[test]
fn provider_error_is_failed_call() {
    match synthesis_result(Err("INVALID_ARGUMENT".to_string())) {
        Err(VoiceError::RemoteCallFailed(m)) => assert_eq!(m, "INVALID_ARGUMENT"),
        _ => panic!("expected a failed call"),
    }
}

#[test]
fn error_messages() {
    assert_eq!(VoiceError::RemoteUnavailable("no route".to_string()).message(), "no route");
    assert_eq!(VoiceError::RemoteCallFailed("denied".to_string()).message(), "denied");
    assert_eq!(VoiceError::IoFailure("broken".to_string()).message(), "broken");
    assert_eq!(
        VoiceError::PreviewNotFound("voice_a.mp3".to_string()).message(),
        "Voice preview file not found: voice_a.mp3"
    );
}
