//! Decisions of the shell's commands that do not touch the backend: the
//! recording request, where generated files go, and the tailored resume
//! the front end hands back as base64.
use vstd::prelude::*;
use crate::desktop::recorder::{DEFAULT_POLL_TIMEOUT_MS, RecorderConfig};
use crate::desktop::types::opt_view;

verus! {

/// A blank setting counts as not given.
pub fn opt(s: String) -> (r: Option<String>)
    ensures
        opt_view(r) == if crate::text::is_blank(s@) {
            None
        } else {
            Some(s@)
        },
{
    if crate::text::is_blank_str(s.as_str()) {
        None
    } else {
        Some(s)
    }
}

/// A blank setting falls back to `fallback`.
pub fn non_empty(s: String, fallback: &str) -> (r: String)
    ensures
        r@ == if crate::text::is_blank(s@) {
            fallback@
        } else {
            s@
        },
{
    if crate::text::is_blank_str(s.as_str()) {
        crate::text::owned(fallback)
    } else {
        s
    }
}

/// What the front end asks a recording to be; blank fields take defaults.
#[derive(Clone, Debug, Default)]
pub struct StartRecordingArgs {
    pub out_dir: String,
    pub system_device: String,
    pub mic_device: String,
    pub system_file: String,
    pub mic_file: String,
}

/// The recorder configuration for a request: blank devices mean the
/// defaults, blank file names `system_audio.wav` and `microphone.wav`, and
/// an empty folder `default_out_dir`.
pub fn recording_config(args: StartRecordingArgs, default_out_dir: String) -> (r: RecorderConfig)
    ensures
        opt_view(r.system_device_name) == if crate::text::is_blank(args.system_device@) {
            None
        } else {
            Some(args.system_device@)
        },
        opt_view(r.mic_device_name) == if crate::text::is_blank(args.mic_device@) {
            None
        } else {
            Some(args.mic_device@)
        },
        r.output_dir@ == if args.out_dir@.len() == 0 {
            default_out_dir@
        } else {
            args.out_dir@
        },
        r.system_file@ == if crate::text::is_blank(args.system_file@) {
            "system_audio.wav"@
        } else {
            args.system_file@
        },
        r.mic_file@ == if crate::text::is_blank(args.mic_file@) {
            "microphone.wav"@
        } else {
            args.mic_file@
        },
        r.poll_timeout_ms == 100,
{
    let output_dir = if args.out_dir.as_str().is_empty() {
        default_out_dir
    } else {
        args.out_dir
    };
    RecorderConfig {
        system_device_name: opt(args.system_device),
        mic_device_name: opt(args.mic_device),
        output_dir,
        system_file: non_empty(args.system_file, "system_audio.wav"),
        mic_file: non_empty(args.mic_file, "microphone.wav"),
        poll_timeout_ms: DEFAULT_POLL_TIMEOUT_MS,
    }
}

/// A recording can start only when none is running.
pub fn check_can_start(recording: bool) -> (r: Result<(), String>)
    ensures
        recording ==> (r matches Err(e) && e@ == "A recording is already in progress"@),
        !recording ==> r is Ok,
{
    if recording {
        Err(crate::text::owned("A recording is already in progress"))
    } else {
        Ok(())
    }
}

/// Where a job's generated file `file` goes, as path segments below the
/// user's data folder: `InterPrep/applications/<job id>/<file>`.
pub fn application_file(job_id: &str, file: &str) -> (r: Vec<String>)
    ensures
        r@.map_values(|s: String| s@) == seq!["InterPrep"@, "applications"@, job_id@, file@],
{
    let mut r: Vec<String> = Vec::new();
    r.push(crate::text::owned("InterPrep"));
    r.push(crate::text::owned("applications"));
    r.push(crate::text::owned(job_id));
    r.push(crate::text::owned(file));
    assert(r@.map_values(|s: String| s@) =~= seq!["InterPrep"@, "applications"@, job_id@, file@]);
    r
}

/// The bytes of a tailored `.docx` sent as base64, or why they could not be
/// decoded.
pub fn decode_resume_docx(b64: &str) -> (r: Result<Vec<u8>, String>)
    ensures
        match crate::sse::base64_decoded(b64@) {
            Ok(b) => (r matches Ok(x) && x@ == b),
            Err(e) => (r matches Err(m) && m@ == "base64 decode failed: "@ + e),
        },
{
    match crate::sse::base64_decode(b64) {
        Ok(b) => Ok(b),
        Err(e) => {
            let mut m = crate::text::owned("base64 decode failed: ");
            crate::text::push_str(&mut m, e.as_str());
            Err(m)
        },
    }
}

} // verus!
