//! What the text-to-speech service is asked for, and where its audio is kept.

use vstd::prelude::*;

use crate::text::same_text;

verus! {

/// Voice of Clyde at the speech service.
pub const CLYDE_VOICE: &'static str = "2EiwWnXFnvU5JabPnv8n";

/// Voice of Glinda at the speech service.
pub const GLINDA_VOICE: &'static str = "z9fAnlkpzviPz146aGWa";

/// Voice given to every other character (Harry, in the game's cast).
pub const DEFAULT_VOICE: &'static str = "SOYHLrjzK2X1ezoPC6cr";

/// The speech model that every request names.
pub const TTS_MODEL: &'static str = "eleven_turbo_v2";

/// Base address of the speech service.
pub const TTS_API_URL: &'static str = "https://api.elevenlabs.io/v1/";

/// The voice that reads a character's lines.
pub open spec fn voice_for(character: Seq<char>) -> Seq<char> {
    if character == "Clyde"@ {
        CLYDE_VOICE@
    } else if character == "Glinda"@ {
        GLINDA_VOICE@
    } else {
        DEFAULT_VOICE@
    }
}

/// A lower-case hexadecimal digit.
pub open spec fn is_lower_hex(c: char) -> bool {
    ('0' <= c && c <= '9') || ('a' <= c && c <= 'f')
}

/// The text of a random (version 4, RFC 9562 variant) UUID in its
/// hyphenated lower-case form, such as `67e55044-10b1-426f-9247-bb680e5fe0c8`.
pub open spec fn is_v4_uuid_text(s: Seq<char>) -> bool {
    &&& s.len() == 36
    &&& forall|i: int|
        0 <= i < 36 ==> (if i == 8 || i == 13 || i == 18 || i == 23 {
            s[i] == '-'
        } else {
            is_lower_hex(#[trigger] s[i])
        })
    &&& s[14] == '4'
    &&& (s[19] == '8' || s[19] == '9' || s[19] == 'a' || s[19] == 'b')
}

/// What the speech service is sent for one line of dialogue.
pub struct SpeechRequest {
    pub model_id: Option<String>,
    pub text: String,
    pub voice_id: String,
}

/// The voice that reads a character's lines.
pub fn voice_id(character: &str) -> (id: &'static str)
    ensures
        id@ == voice_for(character@),
        character@ == "Clyde"@ ==> id@ == CLYDE_VOICE@,
        character@ == "Glinda"@ ==> id@ == GLINDA_VOICE@,
        character@ != "Clyde"@ && character@ != "Glinda"@ ==> id@ == DEFAULT_VOICE@,
{
    proof {
        reveal_strlit("Clyde");
        reveal_strlit("Glinda");
        assert(("Glinda"@)[0] != ("Clyde"@)[0]);
    }
    if same_text(character, "Clyde") {
        CLYDE_VOICE
    } else if same_text(character, "Glinda") {
        GLINDA_VOICE
    } else {
        DEFAULT_VOICE
    }
}

/// The request for `character` to speak `message`: the fixed model, the
/// message as it is, no voice settings, and the character's voice.
pub fn speech_request(message: String, character: &str) -> (r: SpeechRequest)
    ensures
        r.model_id matches Some(m) && m@ == TTS_MODEL@,
        r.text@ == message@,
        r.voice_id@ == voice_for(character@),
{
    SpeechRequest {
        model_id: Some(String::from_str(TTS_MODEL)),
        text: message,
        voice_id: String::from_str(voice_id(character)),
    }
}

/// The file name under which a line's audio is saved: the id and `.mp3`.
pub fn audio_file_name(id: &str) -> (name: String)
    ensures
        name@ == id@ + ".mp3"@,
{
    let mut name = String::from_str(id);
    name.append(".mp3");
    name
}

/// Where a saved audio file lies: under the `assets/` directory.
pub fn asset_path(file_name: &str) -> (path: String)
    ensures
        path@ == "assets/"@ + file_name@,
{
    let mut path = String::from_str("assets/");
    path.append(file_name);
    path
}

/// The text of a freshly drawn random UUID.
///
/// Trusted: calls `uuid::Uuid::new_v4` and formats the result with
/// `to_string`, which the `uuid` crate writes in the hyphenated lower-case
/// form with the version digit `4` and the RFC variant digit. Which UUID is
/// drawn is left open: it comes from the operating system's random source.
#[verifier::external_body]
fn random_uuid_text() -> (s: String)
    ensures
        is_v4_uuid_text(s@),
{
    uuid::Uuid::new_v4().to_string()
}

/// A new file name for a line's audio: a random UUID followed by `.mp3`.
/// Two calls may give different names.
pub fn new_audio_file_name() -> (name: String)
    ensures
        name@.len() == 40,
        is_v4_uuid_text(name@.subrange(0, 36)),
        name@.subrange(36, 40) == ".mp3"@,
{
    let id = random_uuid_text();
    let name = audio_file_name(id.as_str());
    proof {
        reveal_strlit(".mp3");
        assert(name@.subrange(0, 36) =~= id@);
        assert(name@.subrange(36, 40) =~= ".mp3"@);
    }
    name
}

} // verus!
