//! How the shell reads the backend's non-streaming replies: the bridge
//! calls, the interview cheatsheet, and speech synthesis and recognition.
//! The request itself and the decoding of the reply body are done by the
//! caller, which hands over the members read here.
use vstd::prelude::*;
use crate::desktop::types::opt_view;

verus! {

/// The error of a bridge call the backend refused: `<call> failed: HTTP
/// <status>`.
pub fn refused_error(call: &str, status: &str) -> (r: String)
    ensures
        r@ == call@ + " failed: HTTP "@ + status@,
{
    let mut m = crate::text::owned(call);
    crate::text::push_str(&mut m, " failed: HTTP ");
    crate::text::push_str(&mut m, status);
    m
}

/// A reply carrying a string `"error"` member is a failure with that text.
pub fn reply_error(error: Option<String>) -> (r: Result<(), String>)
    ensures
        match error {
            Some(e) => (r matches Err(x) && x@ == e@),
            None => r is Ok,
        },
{
    match error {
        Some(e) => Err(e),
        None => Ok(()),
    }
}

/// The audio of a synthesis reply: its `"error"` member, else the WAV
/// bytes its `"audio_b64"` member decodes to.
pub fn tts_audio(error: Option<String>, audio_b64: Option<String>) -> (r: Result<Vec<u8>, String>)
    ensures
        match (error, audio_b64) {
            (Some(e), _) => (r matches Err(x) && x@ == e@),
            (None, None) => (r matches Err(x) && x@ == "no audio in TTS response"@),
            (None, Some(b)) => match crate::sse::base64_decoded(b@) {
                Ok(bytes) => (r matches Ok(x) && x@ == bytes),
                Err(d) => (r matches Err(x) && x@ == "base64 decode failed: "@ + d),
            },
        },
{
    if let Some(e) = error {
        return Err(e);
    }
    match audio_b64 {
        None => Err(crate::text::owned("no audio in TTS response")),
        Some(b) => match crate::sse::base64_decode(b.as_str()) {
            Ok(bytes) => Ok(bytes),
            Err(d) => {
                let mut m = crate::text::owned("base64 decode failed: ");
                crate::text::push_str(&mut m, d.as_str());
                Err(m)
            },
        },
    }
}

/// The text of a recognition reply: its `"error"` member, else its
/// `"text"` member (empty when absent).
pub fn stt_text(error: Option<String>, text: Option<String>) -> (r: Result<String, String>)
    ensures
        match error {
            Some(e) => (r matches Err(x) && x@ == e@),
            None => (r matches Ok(x) && x@ == match opt_view(text) {
                Some(t) => t,
                None => Seq::<char>::empty(),
            }),
        },
{
    if let Some(e) = error {
        return Err(e);
    }
    match text {
        Some(t) => Ok(t),
        None => Ok(String::new()),
    }
}

/// The sample rate of a streamed synthesis: the `X-Sample-Rate` header
/// read as a `u32`, else 16000.
pub fn sample_rate(header: Option<&str>) -> (r: u32)
    ensures
        r == match header {
            Some(h) => match crate::shell::sidecar::parse_bounded_spec(h@, 4294967295) {
                Some(v) => v as u32,
                None => 16000u32,
            },
            None => 16000u32,
        },
{
    match header {
        Some(h) => match crate::shell::sidecar::parse_bounded(h, 4294967295) {
            Some(v) => v,
            None => 16000,
        },
        None => 16000,
    }
}

} // verus!
