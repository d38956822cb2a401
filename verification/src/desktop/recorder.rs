//! The dual recorder: system audio (loopback of a playback device) and the
//! microphone, each written to its own 32-bit float WAV file. What a capture
//! worker decides on integer data lives here: which device each source uses,
//! how raw PCM samples read, and how packets are checked.
use vstd::prelude::*;

verus! {

/// How long each capture thread waits before checking whether recording
/// should stop.
pub const DEFAULT_POLL_TIMEOUT_MS: u32 = 100;

#[derive(Clone, Debug)]
pub struct RecorderConfig {
    pub system_device_name: Option<String>,
    pub mic_device_name: Option<String>,
    pub output_dir: String,
    pub system_file: String,
    pub mic_file: String,
    pub poll_timeout_ms: u32,
}

#[derive(Clone, Debug)]
pub struct AudioDeviceEntry {
    pub name: String,
    pub is_default: bool,
}

#[derive(Clone, Debug, Default)]
pub struct DeviceCatalog {
    pub render_devices: Vec<AudioDeviceEntry>,
    pub capture_devices: Vec<AudioDeviceEntry>,
}

/// Which of the two streams a capture worker records.
#[derive(Clone, Copy, Debug, PartialEq, Eq, Structural)]
pub enum CaptureSource {
    SystemAudio,
    Microphone,
}

pub open spec fn source_label(s: CaptureSource) -> Seq<char> {
    match s {
        CaptureSource::SystemAudio => "system audio"@,
        CaptureSource::Microphone => "microphone"@,
    }
}

pub open spec fn source_short_label(s: CaptureSource) -> Seq<char> {
    match s {
        CaptureSource::SystemAudio => "system"@,
        CaptureSource::Microphone => "mic"@,
    }
}

impl CaptureSource {
    pub fn label(self) -> (r: &'static str)
        ensures
            r@ == source_label(self),
    {
        match self {
            CaptureSource::SystemAudio => "system audio",
            CaptureSource::Microphone => "microphone",
        }
    }

    pub fn short_label(self) -> (r: &'static str)
        ensures
            r@ == source_short_label(self),
    {
        match self {
            CaptureSource::SystemAudio => "system",
            CaptureSource::Microphone => "mic",
        }
    }

    /// Whether the source's device is a playback device (looped back) rather
    /// than a capture device.
    pub fn uses_render_device(self) -> (r: bool)
        ensures
            r == (self == CaptureSource::SystemAudio),
    {
        match self {
            CaptureSource::SystemAudio => true,
            CaptureSource::Microphone => false,
        }
    }

    /// The name of the source's capture worker thread.
    pub fn worker_name(self) -> (r: String)
        ensures
            r@ == "capture-"@ + source_short_label(self),
    {
        let mut s = crate::text::owned("capture-");
        crate::text::push_str(&mut s, self.short_label());
        s
    }
}

/// What one capture worker recorded.
#[derive(Clone, Debug)]
pub struct CaptureSummary {
    pub source: CaptureSource,
    pub device_name: String,
    pub output_path: String,
    pub sample_rate: u32,
    pub channels: u16,
    pub frames_written: u64,
}

#[derive(Debug)]
pub struct RecordingReport {
    pub system: CaptureSummary,
    pub microphone: CaptureSummary,
}

/// Whether a session that has run `elapsed_nanos` nanoseconds has reached
/// its length (`None`: it runs until stopped).
pub fn auto_stop_due(elapsed_nanos: u128, duration_secs: Option<u64>) -> (r: bool)
    ensures
        r == match duration_secs {
            Some(d) => elapsed_nanos >= d * 1_000_000_000,
            None => false,
        },
{
    match duration_secs {
        Some(d) => elapsed_nanos >= (d as u128) * 1_000_000_000,
        None => false,
    }
}

/// The line listing one device: `[default]` marks the default one.
pub fn device_line(entry: &AudioDeviceEntry) -> (r: String)
    ensures
        r@ == (if entry.is_default {
            "  [default] "@
        } else {
            "  [       ] "@
        }) + entry.name@,
{
    let mut s = if entry.is_default {
        crate::text::owned("  [default] ")
    } else {
        crate::text::owned("  [       ] ")
    };
    crate::text::push_str(&mut s, entry.name.as_str());
    s
}

/// The lines listing a device list.
pub fn device_lines(devices: &Vec<AudioDeviceEntry>) -> (r: Vec<String>)
    ensures
        devices@.len() == 0 ==> r@.len() == 1 && r@[0]@ == "  (no active devices found)"@,
        devices@.len() > 0 ==> r@.len() == devices@.len() && forall|i: int|
            0 <= i < devices@.len() ==> #[trigger] r@[i]@ == (if devices@[i].is_default {
                "  [default] "@
            } else {
                "  [       ] "@
            }) + devices@[i].name@,
{
    let mut r: Vec<String> = Vec::new();
    if devices.len() == 0 {
        r.push(crate::text::owned("  (no active devices found)"));
        return r;
    }
    let mut i: usize = 0;
    while i < devices.len()
        invariant
            0 <= i <= devices.len(),
            r@.len() == i,
            forall|k: int|
                0 <= k < i ==> #[trigger] r@[k]@ == (if devices@[k].is_default {
                    "  [default] "@
                } else {
                    "  [       ] "@
                }) + devices@[k].name@,
        decreases devices.len() - i,
    {
        r.push(device_line(&devices[i]));
        i += 1;
    }
    r
}

// ─── PCM samples ────────────────────────────────────────────────────────────

/// A little-endian two's-complement integer of `n` bytes.
pub open spec fn le_signed(b: Seq<u8>) -> int
    recommends
        1 <= b.len() <= 4,
{
    let u = le_unsigned(b);
    let half = pow256(b.len()) / 2;
    if u >= half {
        u - 2 * half
    } else {
        u
    }
}

pub open spec fn le_unsigned(b: Seq<u8>) -> int
    decreases b.len(),
{
    if b.len() == 0 {
        0
    } else {
        b[0] + 256 * le_unsigned(b.skip(1))
    }
}

pub open spec fn pow256(n: nat) -> int
    decreases n,
{
    if n == 0 {
        1
    } else {
        256 * pow256((n - 1) as nat)
    }
}

/// Reads a 24-bit little-endian signed sample.
pub fn decode_i24_le(chunk: &[u8]) -> (r: Result<i32, String>)
    ensures
        chunk@.len() == 3 ==> (r matches Ok(v) && v == le_signed(chunk@)),
        chunk@.len() != 3 ==> (r matches Err(e) && e@ == "invalid 24-bit integer sample"@),
{
    if chunk.len() != 3 {
        return Err(crate::text::owned("invalid 24-bit integer sample"));
    }
    let raw: i32 = chunk[0] as i32 + 256 * (chunk[1] as i32) + 65536 * (chunk[2] as i32);
    proof {
        reveal_with_fuel(le_unsigned, 4);
        reveal_with_fuel(pow256, 4);
        assert(chunk@.skip(1).skip(1).skip(1).len() == 0);
        assert(chunk@.skip(1)[0] == chunk@[1]);
        assert(chunk@.skip(1).skip(1)[0] == chunk@[2]);
    }
    if raw >= 0x80_0000 {
        Ok(raw - 0x100_0000)
    } else {
        Ok(raw)
    }
}

/// An integer PCM sample and the full-scale value it is divided by to give
/// a level in [-1, 1]. 8-bit samples are unsigned with 128 as silence; the
/// wider ones are little-endian signed.
pub open spec fn int_sample_spec(chunk: Seq<u8>, bits: u16) -> Result<(int, int), Seq<char>> {
    if bits == 8 {
        Ok((chunk[0] - 128, 128))
    } else if bits == 16 {
        if chunk.len() == 2 {
            Ok((le_signed(chunk), 32768))
        } else {
            Err("invalid 16-bit integer sample"@)
        }
    } else if bits == 24 {
        if chunk.len() == 3 {
            Ok((le_signed(chunk), 8388608))
        } else {
            Err("invalid 24-bit integer sample"@)
        }
    } else if bits == 32 {
        if chunk.len() == 4 {
            Ok((le_signed(chunk), 2147483648))
        } else {
            Err("invalid 32-bit integer sample"@)
        }
    } else {
        Err("unsupported PCM sample width: "@ + crate::text::decimal(bits as nat) + " bits"@)
    }
}

pub fn int_sample(chunk: &[u8], bits: u16) -> (r: Result<(i64, i64), String>)
    requires
        bits == 8 ==> chunk@.len() >= 1,
    ensures
        match r {
            Ok((v, s)) => int_sample_spec(chunk@, bits) == Ok::<(int, int), Seq<char>>((v as int, s as int)),
            Err(e) => int_sample_spec(chunk@, bits) == Err::<(int, int), Seq<char>>(e@),
        },
{
    if bits == 8 {
        return Ok((chunk[0] as i64 - 128, 128));
    }
    if bits == 16 {
        if chunk.len() != 2 {
            return Err(crate::text::owned("invalid 16-bit integer sample"));
        }
        let u: i64 = chunk[0] as i64 + 256 * (chunk[1] as i64);
        proof {
            reveal_with_fuel(le_unsigned, 3);
            reveal_with_fuel(pow256, 3);
            assert(chunk@.skip(1).skip(1).len() == 0);
            assert(chunk@.skip(1)[0] == chunk@[1]);
        }
        let v = if u >= 32768 {
            u - 65536
        } else {
            u
        };
        return Ok((v, 32768));
    }
    if bits == 24 {
        match decode_i24_le(chunk) {
            Ok(v) => {
                return Ok((v as i64, 8388608));
            },
            Err(e) => {
                return Err(e);
            },
        }
    }
    if bits == 32 {
        if chunk.len() != 4 {
            return Err(crate::text::owned("invalid 32-bit integer sample"));
        }
        let u: i64 = chunk[0] as i64 + 256 * (chunk[1] as i64) + 65536 * (chunk[2] as i64) + 16777216 * (
        chunk[3] as i64);
        proof {
            reveal_with_fuel(le_unsigned, 5);
            reveal_with_fuel(pow256, 5);
            assert(chunk@.skip(1).skip(1).skip(1).skip(1).len() == 0);
            assert(chunk@.skip(1)[0] == chunk@[1]);
            assert(chunk@.skip(1).skip(1)[0] == chunk@[2]);
            assert(chunk@.skip(1).skip(1).skip(1)[0] == chunk@[3]);
        }
        let v = if u >= 2147483648 {
            u - 4294967296
        } else {
            u
        };
        return Ok((v, 2147483648));
    }
    let mut m = crate::text::owned("unsupported PCM sample width: ");
    crate::text::push_decimal(&mut m, bits as u64);
    crate::text::push_str(&mut m, " bits");
    Err(m)
}

/// The four bytes of a 32-bit float sample (little-endian), or why the
/// chunk is not one.
pub fn float_sample_bytes(chunk: &[u8], bits: u16) -> (r: Result<[u8; 4], String>)
    ensures
        bits == 32 && chunk@.len() == 4 ==> (r matches Ok(b) && b@ == chunk@),
        bits == 32 && chunk@.len() != 4 ==> (r matches Err(e) && e@ == "invalid 32-bit float sample"@),
        bits != 32 ==> (r matches Err(e) && e@ == "unsupported floating-point sample width: "@
            + crate::text::decimal(bits as nat) + " bits"@),
{
    if bits == 32 {
        if chunk.len() != 4 {
            return Err(crate::text::owned("invalid 32-bit float sample"));
        }
        let b: [u8; 4] = [chunk[0], chunk[1], chunk[2], chunk[3]];
        assert(b@ =~= chunk@);
        return Ok(b);
    }
    let mut m = crate::text::owned("unsupported floating-point sample width: ");
    crate::text::push_decimal(&mut m, bits as u64);
    crate::text::push_str(&mut m, " bits");
    Err(m)
}

/// The number of samples in a packet of `len` bytes of `bits`-bit samples,
/// or why the packet cannot be split into samples.
pub fn packet_sample_count(len: usize, bits: u16) -> (r: Result<usize, String>)
    ensures
        bits / 8 == 0 ==> (r matches Err(e) && e@ == "unsupported sample width: "@
            + crate::text::decimal(bits as nat) + " bits"@),
        bits / 8 > 0 && (len as int) % ((bits / 8) as int) != 0 ==> (r matches Err(e) && e@ == "packet size "@
            + crate::text::decimal(len as nat) + " is not aligned to the sample width "@
            + crate::text::decimal((bits / 8) as nat)),
        bits / 8 > 0 && (len as int) % ((bits / 8) as int) == 0 ==> (r matches Ok(n) && n == (len as int) / ((bits / 8) as int)),
{
    let bps: usize = (bits / 8) as usize;
    if bps == 0 {
        let mut m = crate::text::owned("unsupported sample width: ");
        crate::text::push_decimal(&mut m, bits as u64);
        crate::text::push_str(&mut m, " bits");
        return Err(m);
    }
    if len % bps != 0 {
        let mut m = crate::text::owned("packet size ");
        crate::text::push_decimal(&mut m, len as u64);
        crate::text::push_str(&mut m, " is not aligned to the sample width ");
        crate::text::push_decimal(&mut m, bps as u64);
        return Err(m);
    }
    Ok(len / bps)
}

} // verus!
