use cornhacks24_game::speech::{
    asset_path, audio_file_name, new_audio_file_name, speech_request, voice_id, CLYDE_VOICE,
    DEFAULT_VOICE, GLINDA_VOICE, TTS_API_URL, TTS_MODEL,
};

#[test]
fn each_suspect_has_a_voice() {
    assert_eq!(voice_id("Clyde"), "2EiwWnXFnvU5JabPnv8n");
    assert_eq!(voice_id("Glinda"), "z9fAnlkpzviPz146aGWa");
    assert_eq!(voice_id("Harry"), "SOYHLrjzK2X1ezoPC6cr");
}

#[test]
fn unknown_characters_get_the_default_voice() {
    assert_eq!(voice_id(""), DEFAULT_VOICE);
    assert_eq!(voice_id("clyde"), DEFAULT_VOICE);
    assert_eq!(voice_id("Clyde "), DEFAULT_VOICE);
    assert_ne!(voice_id("Clyde"), voice_id("Glinda"));
    assert_eq!(voice_id("Clyde"), CLYDE_VOICE);
    assert_eq!(voice_id("Glinda"), GLINDA_VOICE);
}

#[test]
fn speech_request_fields() {
    let r = speech_request("I did not do it.".to_string(), "Glinda");
    assert_eq!(r.model_id.as_deref(), Some("eleven_turbo_v2"));
    assert_eq!(r.model_id.as_deref(), Some(TTS_MODEL));
    assert_eq!(r.text, "I did not do it.");
    assert_eq!(r.voice_id, "z9fAnlkpzviPz146aGWa");
}

#[test]
fn service_address() {
    assert_eq!(TTS_API_URL, "https://api.elevenlabs.io/v1/");
}

#[test]
fn audio_names_and_paths() {
    assert_eq!(audio_file_name("abc"), "abc.mp3");
    assert_eq!(audio_file_name(""), ".mp3");
    assert_eq!(asset_path("abc.mp3"), "assets/abc.mp3");
}

fn is_v4_uuid_text(s: &str) -> bool {
    let b = s.as_bytes();
    if b.len() != 36 {
        return false;
    }
    for (i, c) in b.iter().enumerate() {
        let ok = if i == 8 || i == 13 || i == 18 || i == 23 {
            *c == b'-'
        } else {
            c.is_ascii_digit() || (b'a'..=b'f').contains(c)
        };
        if !ok {
            return false;
        }
    }
    b[14] == b'4' && matches!(b[19], b'8' | b'9' | b'a' | b'b')
}

#[test]
fn fresh_audio_names_are_uuids_with_mp3() {
    let a = new_audio_file_name();
    let b = new_audio_file_name();
    assert_eq!(a.len(), 40);
    assert!(a.ends_with(".mp3"));
    assert!(is_v4_uuid_text(&a[..36]));
    assert!(is_v4_uuid_text(&b[..36]));
    assert_ne!(a, b);
}
