//! Negotiated capture formats: which layouts are accepted, how they are
//! labelled, and the integer decoding of little-endian PCM samples.
use vstd::prelude::*;

use crate::text::{decimal_digits, owned, push_decimal, push_str};

verus! {

/// The sample encodings a capture endpoint may deliver.
#[derive(Clone, Copy, Debug, PartialEq, Eq, Structural)]
pub enum SampleFormat {
    Float32,
    Pcm16,
    Pcm24,
    Pcm32,
}

/// A negotiated interleaved capture format.
#[derive(Clone, Copy, Debug, PartialEq, Eq, Structural)]
pub struct AudioFormat {
    pub sample_format: SampleFormat,
    pub channels: u16,
    pub sample_rate: u32,
    pub block_align: u16,
}

/// Bytes occupied by one sample of `format`.
pub open spec fn spec_sample_bytes(format: SampleFormat) -> nat {
    match format {
        SampleFormat::Pcm16 => 2,
        SampleFormat::Pcm24 => 3,
        SampleFormat::Float32 | SampleFormat::Pcm32 => 4,
    }
}

/// The smallest frame size that holds one sample of every channel.
pub open spec fn expected_align(format: AudioFormat) -> nat {
    (format.channels as nat) * spec_sample_bytes(format.sample_format)
}

pub open spec fn channels_supported(format: AudioFormat) -> bool {
    1 <= format.channels <= 32
}

pub open spec fn rate_supported(format: AudioFormat) -> bool {
    8_000 <= format.sample_rate <= 384_000
}

pub open spec fn align_supported(format: AudioFormat) -> bool {
    format.block_align >= expected_align(format)
}

/// A format is accepted when its channel count, rate and frame alignment
/// are all supported.
pub open spec fn format_is_valid(format: AudioFormat) -> bool {
    channels_supported(format) && rate_supported(format) && align_supported(format)
}

/// The message reported for the first failed check of `format`.
pub open spec fn validation_message(format: AudioFormat) -> Seq<char> {
    if !channels_supported(format) {
        "Unsupported channel count: "@ + decimal_digits(format.channels as nat)
    } else if !rate_supported(format) {
        "Unsupported sample rate: "@ + decimal_digits(format.sample_rate as nat) + " Hz"@
    } else {
        "Invalid audio block alignment: "@ + decimal_digits(format.block_align as nat)
            + " bytes for "@ + decimal_digits(format.channels as nat) + " channels"@
    }
}

/// Bytes occupied by one sample of `format`.
pub fn sample_bytes(format: SampleFormat) -> (r: usize)
    ensures
        r == spec_sample_bytes(format),
{
    match format {
        SampleFormat::Pcm16 => 2,
        SampleFormat::Pcm24 => 3,
        SampleFormat::Float32 | SampleFormat::Pcm32 => 4,
    }
}

impl AudioFormat {
    /// Accepts the format unchanged when it is usable, and otherwise names
    /// the first unsupported property.
    pub fn validate(self) -> (r: Result<Self, String>)
        ensures
            r is Ok <==> format_is_valid(self),
            r matches Ok(f) ==> f == self,
            r matches Err(e) ==> e@ == validation_message(self),
    {
        let sample = sample_bytes(self.sample_format);
        let expected: usize = (self.channels as usize) * sample;
        if self.channels == 0 || self.channels > 32 {
            let mut message = owned("Unsupported channel count: ");
            push_decimal(&mut message, self.channels as u64);
            return Err(message);
        }
        if !(8_000 <= self.sample_rate && self.sample_rate <= 384_000) {
            let mut message = owned("Unsupported sample rate: ");
            push_decimal(&mut message, self.sample_rate as u64);
            push_str(&mut message, " Hz");
            return Err(message);
        }
        if (self.block_align as usize) < expected {
            let mut message = owned("Invalid audio block alignment: ");
            push_decimal(&mut message, self.block_align as u64);
            push_str(&mut message, " bytes for ");
            push_decimal(&mut message, self.channels as u64);
            push_str(&mut message, " channels");
            return Err(message);
        }
        Ok(self)
    }

    /// A short human-readable name of the sample encoding.
    pub fn label(self) -> (r: &'static str)
        ensures
            r@ == format_label(self.sample_format),
    {
        match self.sample_format {
            SampleFormat::Float32 => "32-bit float",
            SampleFormat::Pcm16 => "16-bit PCM",
            SampleFormat::Pcm24 => "24-bit PCM",
            SampleFormat::Pcm32 => "32-bit PCM",
        }
    }
}

pub open spec fn format_label(format: SampleFormat) -> Seq<char> {
    match format {
        SampleFormat::Float32 => "32-bit float"@,
        SampleFormat::Pcm16 => "16-bit PCM"@,
        SampleFormat::Pcm24 => "24-bit PCM"@,
        SampleFormat::Pcm32 => "32-bit PCM"@,
    }
}

/// The integer PCM encoding with `bits` bits per sample.
pub fn pcm_format(bits: u16) -> (r: Result<SampleFormat, String>)
    ensures
        bits == 16 <==> r == Ok::<SampleFormat, String>(SampleFormat::Pcm16),
        bits == 24 <==> r == Ok::<SampleFormat, String>(SampleFormat::Pcm24),
        bits == 32 <==> r == Ok::<SampleFormat, String>(SampleFormat::Pcm32),
        r is Ok <==> (bits == 16 || bits == 24 || bits == 32),
        r matches Err(e) ==> e@ == "Unsupported PCM bit depth: "@ + decimal_digits(bits as nat),
{
    match bits {
        16 => Ok(SampleFormat::Pcm16),
        24 => Ok(SampleFormat::Pcm24),
        32 => Ok(SampleFormat::Pcm32),
        _ => {
            let mut message = owned("Unsupported PCM bit depth: ");
            push_decimal(&mut message, bits as u64);
            Err(message)
        },
    }
}

/// What a packet of `byte_len` bytes declaring `frames` frames of `format`
/// yields: the byte count those frames occupy, or the reason it is unusable.
pub open spec fn packet_outcome(byte_len: nat, frames: nat, format: AudioFormat) -> Result<
    nat,
    Seq<char>,
> {
    let required: nat = frames * (format.block_align as nat);
    if !format_is_valid(format) {
        Err(validation_message(format))
    } else if required > usize::MAX {
        Err("Audio packet size overflow"@)
    } else if byte_len < required {
        Err("Audio packet was shorter than its declared frame count ("@ + decimal_digits(byte_len)
            + " < "@ + decimal_digits(required) + ")"@)
    } else {
        Ok(required)
    }
}

/// The number of packet bytes that `frames` frames of `format` occupy.
/// A packet is usable when the format validates, the size does not overflow
/// and the packet holds at least that many bytes.
pub fn packet_byte_count(byte_len: usize, frames: usize, format: AudioFormat) -> (r: Result<
    usize,
    String,
>)
    ensures
        match r {
            Ok(n) => packet_outcome(byte_len as nat, frames as nat, format) == Ok::<nat, Seq<char>>(
                n as nat,
            ),
            Err(e) => packet_outcome(byte_len as nat, frames as nat, format) == Err::<nat, Seq<char>>(
                e@,
            ),
        },
{
    let format = match format.validate() {
        Ok(f) => f,
        Err(e) => return Err(e),
    };
    let required = match frames.checked_mul(format.block_align as usize) {
        Some(n) => n,
        None => return Err(owned("Audio packet size overflow")),
    };
    if byte_len < required {
        let mut message = owned("Audio packet was shorter than its declared frame count (");
        push_decimal(&mut message, byte_len as u64);
        push_str(&mut message, " < ");
        push_decimal(&mut message, required as u64);
        push_str(&mut message, ")");
        return Err(message);
    }
    Ok(required)
}

/// The unsigned little-endian value of `bytes`.
pub open spec fn le_unsigned(bytes: Seq<u8>) -> int
    decreases bytes.len(),
{
    if bytes.len() == 0 {
        0
    } else {
        bytes[0] as int + 256 * le_unsigned(bytes.drop_first())
    }
}

/// Two's-complement reading of an `n`-byte little-endian integer.
pub open spec fn le_signed(bytes: Seq<u8>) -> int {
    let unsigned = le_unsigned(bytes);
    let bits = 8 * bytes.len();
    if bytes.len() > 0 && unsigned >= pow2_int(bits as nat) / 2 {
        unsigned - pow2_int(bits as nat)
    } else {
        unsigned
    }
}

pub open spec fn pow2_int(n: nat) -> int
    decreases n,
{
    if n == 0 {
        1
    } else {
        2 * pow2_int((n - 1) as nat)
    }
}

/// The raw integer carried by one sample. Integer encodings are read as
/// signed little-endian values; a 32-bit float sample is returned as its
/// bit pattern (reinterpreted as `i32`) for the caller to convert.
pub fn decode_pcm(bytes: &[u8], format: SampleFormat) -> (r: i32)
    requires
        bytes.len() == spec_sample_bytes(format),
    ensures
        r as int == le_signed(bytes@),
{
    proof {
        reveal_with_fuel(le_unsigned, 5);
        reveal_with_fuel(pow2_int, 33);
    }
    let b0 = bytes[0] as i64;
    let b1 = bytes[1] as i64;
    match format {
        SampleFormat::Pcm16 => {
            let u = b0 + 256 * b1;
            let v = if u >= 32768 { u - 65536 } else { u };
            v as i32
        },
        SampleFormat::Pcm24 => {
            let b2 = bytes[2] as i64;
            let u = b0 + 256 * b1 + 65536 * b2;
            let v = if u >= 8388608 { u - 16777216 } else { u };
            v as i32
        },
        SampleFormat::Float32 | SampleFormat::Pcm32 => {
            let b2 = bytes[2] as i64;
            let b3 = bytes[3] as i64;
            let u = b0 + 256 * b1 + 65536 * b2 + 16777216 * b3;
            let v = if u >= 2147483648 { u - 4294967296 } else { u };
            v as i32
        },
    }
}

/// A gate that can be claimed once; used to release a capture packet
/// exactly once whichever path reaches the release first.
pub struct ReleaseOnce(pub bool);

impl ReleaseOnce {
    /// An unclaimed gate.
    pub fn new() -> (r: Self)
        ensures
            !r.0,
    {
        ReleaseOnce(false)
    }

    /// Returns true for the first call only, and false after it.
    pub fn claim(&mut self) -> (r: bool)
        ensures
            r == !old(self).0,
            final(self).0,
    {
        if self.0 {
            false
        } else {
            self.0 = true;
            true
        }
    }
}

impl Default for ReleaseOnce {
    fn default() -> (r: Self)
        ensures
            !r.0,
    {
        ReleaseOnce(false)
    }
}

} // verus!
