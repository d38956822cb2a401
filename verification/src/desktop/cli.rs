//! The desktop program's command line: which mode it runs in and how a
//! headless recording is configured.
use vstd::prelude::*;
use crate::desktop::recorder::{DEFAULT_POLL_TIMEOUT_MS, RecorderConfig};

verus! {

/// The parsed command line (defaults: 10 seconds, `captures`,
/// `system_audio.wav`, `microphone.wav`, 100 ms poll timeout).
#[derive(Clone, Debug)]
pub struct CliArgs {
    pub gui: bool,
    pub list_devices: bool,
    pub seconds: u64,
    pub out_dir: String,
    pub system_file: String,
    pub mic_file: String,
    pub system_device: Option<String>,
    pub mic_device: Option<String>,
    pub poll_timeout_ms: u32,
}

/// What the program does.
#[derive(Clone, Copy, Debug, PartialEq, Eq, Structural)]
pub enum RunMode {
    /// Open the desktop UI.
    Gui,
    /// Print the audio devices and exit.
    ListDevices,
    /// Record system audio and microphone headless.
    Record,
}

/// The UI opens when no argument was given or `--gui` was; otherwise
/// `--list-devices` lists the devices; otherwise the program records.
pub fn run_mode(no_args: bool, args: &CliArgs) -> (r: RunMode)
    ensures
        r == if no_args || args.gui {
            RunMode::Gui
        } else if args.list_devices {
            RunMode::ListDevices
        } else {
            RunMode::Record
        },
{
    if no_args || args.gui {
        RunMode::Gui
    } else if args.list_devices {
        RunMode::ListDevices
    } else {
        RunMode::Record
    }
}

/// What the UI takes from the command line (nothing yet).
pub struct UiSeed {}

impl UiSeed {
    pub fn from_args(args: &CliArgs) -> (r: UiSeed)
        ensures
            r == (UiSeed {  }),
    {
        UiSeed {  }
    }
}

/// The recording length: `0` means until Ctrl+C.
pub fn duration_from_seconds(seconds: u64) -> (r: Option<u64>)
    ensures
        r == if seconds == 0 {
            None::<u64>
        } else {
            Some(seconds)
        },
{
    if seconds == 0 {
        None
    } else {
        Some(seconds)
    }
}

/// The recorder configuration the command line asks for.
pub fn recorder_config(args: &CliArgs) -> (r: RecorderConfig)
    ensures
        r.system_device_name == args.system_device,
        r.mic_device_name == args.mic_device,
        r.output_dir == args.out_dir,
        r.system_file == args.system_file,
        r.mic_file == args.mic_file,
        r.poll_timeout_ms == args.poll_timeout_ms,
{
    RecorderConfig {
        system_device_name: args.system_device.clone(),
        mic_device_name: args.mic_device.clone(),
        output_dir: args.out_dir.clone(),
        system_file: args.system_file.clone(),
        mic_file: args.mic_file.clone(),
        poll_timeout_ms: args.poll_timeout_ms,
    }
}

/// The default poll timeout of the command line.
pub fn default_poll_timeout_ms() -> (r: u32)
    ensures
        r == 100,
{
    DEFAULT_POLL_TIMEOUT_MS
}

/// What a headless recording says before it starts.
pub fn recording_notice(seconds: u64) -> (r: String)
    ensures
        r@ == if seconds == 0 {
            "Press Ctrl+C to stop recording."@
        } else {
            "Recording for "@ + crate::text::decimal(seconds as nat) + " second(s)..."@
        },
{
    if seconds == 0 {
        crate::text::owned("Press Ctrl+C to stop recording.")
    } else {
        let mut s = crate::text::owned("Recording for ");
        crate::text::push_decimal(&mut s, seconds);
        crate::text::push_str(&mut s, " second(s)...");
        s
    }
}

} // verus!
