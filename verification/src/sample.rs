//! Sample formats and sample specifications, mirrored from the native
//! library.
//!
//! A sample specification fixes the width of one frame of audio: the size of
//! one sample in the chosen format times the number of channels. Data
//! written to a playback stream must come in whole frames, so the frame
//! size is the unit that the write preconditions are stated in.

use vstd::prelude::*;

verus! {

/// A time value in microseconds, as the native timing queries report it.
pub type Usecs = u64;

/// The highest channel count a specification may carry.
pub const CHANNELS_MAX: u8 = 32;

/// The highest sample rate a specification may carry.
pub const RATE_MAX: u32 = 384000;

/// Sample formats of the native library, mirrored value for value.
#[derive(Debug, Copy, Clone, PartialEq, Eq, Structural)]
pub enum SampleFormat {
    /// Unsigned 8 bit.
    U8,
    /// 8 bit a-law.
    ALaw,
    /// 8 bit mu-law.
    ULaw,
    /// Signed 16 bit, little endian.
    S16le,
    /// Signed 16 bit, big endian.
    S16be,
    /// 32 bit IEEE floating point, little endian.
    Float32le,
    /// 32 bit IEEE floating point, big endian.
    Float32be,
    /// Signed 32 bit, little endian.
    S32le,
    /// Signed 32 bit, big endian.
    S32be,
    /// Signed 24 bit in three bytes, little endian.
    S24le,
    /// Signed 24 bit in three bytes, big endian.
    S24be,
    /// Signed 24 bit in the low bytes of four, little endian.
    S24in32le,
    /// Signed 24 bit in the low bytes of four, big endian.
    S24in32be,
}

impl SampleFormat {
    /// The size of one sample in this format, in bytes, as a specification.
    pub open spec fn width(self) -> usize {
        match self {
            SampleFormat::U8 => 1,
            SampleFormat::ALaw => 1,
            SampleFormat::ULaw => 1,
            SampleFormat::S16le => 2,
            SampleFormat::S16be => 2,
            SampleFormat::Float32le => 4,
            SampleFormat::Float32be => 4,
            SampleFormat::S32le => 4,
            SampleFormat::S32be => 4,
            SampleFormat::S24le => 3,
            SampleFormat::S24be => 3,
            SampleFormat::S24in32le => 4,
            SampleFormat::S24in32be => 4,
        }
    }

    /// The size of one sample in this format, in bytes.
    pub fn size(self) -> (r: usize)
        ensures
            r == self.width(),
    {
        match self {
            SampleFormat::U8 => 1,
            SampleFormat::ALaw => 1,
            SampleFormat::ULaw => 1,
            SampleFormat::S16le => 2,
            SampleFormat::S16be => 2,
            SampleFormat::Float32le => 4,
            SampleFormat::Float32be => 4,
            SampleFormat::S32le => 4,
            SampleFormat::S32be => 4,
            SampleFormat::S24le => 3,
            SampleFormat::S24be => 3,
            SampleFormat::S24in32le => 4,
            SampleFormat::S24in32be => 4,
        }
    }

    /// The native numeric value of this format.
    pub fn to_raw(self) -> (r: u32)
        ensures
            r == self.raw(),
    {
        match self {
            SampleFormat::U8 => 0,
            SampleFormat::ALaw => 1,
            SampleFormat::ULaw => 2,
            SampleFormat::S16le => 3,
            SampleFormat::S16be => 4,
            SampleFormat::Float32le => 5,
            SampleFormat::Float32be => 6,
            SampleFormat::S32le => 7,
            SampleFormat::S32be => 8,
            SampleFormat::S24le => 9,
            SampleFormat::S24be => 10,
            SampleFormat::S24in32le => 11,
            SampleFormat::S24in32be => 12,
        }
    }

    /// The native numeric value, as a specification.
    pub open spec fn raw(self) -> u32 {
        match self {
            SampleFormat::U8 => 0,
            SampleFormat::ALaw => 1,
            SampleFormat::ULaw => 2,
            SampleFormat::S16le => 3,
            SampleFormat::S16be => 4,
            SampleFormat::Float32le => 5,
            SampleFormat::Float32be => 6,
            SampleFormat::S32le => 7,
            SampleFormat::S32be => 8,
            SampleFormat::S24le => 9,
            SampleFormat::S24be => 10,
            SampleFormat::S24in32le => 11,
            SampleFormat::S24in32be => 12,
        }
    }

    /// The wrapped format for a native numeric value, `None` for a value
    /// outside the mirrored range.
    pub fn from_raw(raw: u32) -> (r: Option<SampleFormat>)
        ensures
            r == Self::decoded(raw),
    {
        match raw {
            0 => Some(SampleFormat::U8),
            1 => Some(SampleFormat::ALaw),
            2 => Some(SampleFormat::ULaw),
            3 => Some(SampleFormat::S16le),
            4 => Some(SampleFormat::S16be),
            5 => Some(SampleFormat::Float32le),
            6 => Some(SampleFormat::Float32be),
            7 => Some(SampleFormat::S32le),
            8 => Some(SampleFormat::S32be),
            9 => Some(SampleFormat::S24le),
            10 => Some(SampleFormat::S24be),
            11 => Some(SampleFormat::S24in32le),
            12 => Some(SampleFormat::S24in32be),
            _ => None,
        }
    }

    /// The decoding of a native numeric value, as a specification.
    pub open spec fn decoded(raw: u32) -> Option<SampleFormat> {
        if raw == 0 { Some(SampleFormat::U8) }
        else if raw == 1 { Some(SampleFormat::ALaw) }
        else if raw == 2 { Some(SampleFormat::ULaw) }
        else if raw == 3 { Some(SampleFormat::S16le) }
        else if raw == 4 { Some(SampleFormat::S16be) }
        else if raw == 5 { Some(SampleFormat::Float32le) }
        else if raw == 6 { Some(SampleFormat::Float32be) }
        else if raw == 7 { Some(SampleFormat::S32le) }
        else if raw == 8 { Some(SampleFormat::S32be) }
        else if raw == 9 { Some(SampleFormat::S24le) }
        else if raw == 10 { Some(SampleFormat::S24be) }
        else if raw == 11 { Some(SampleFormat::S24in32le) }
        else if raw == 12 { Some(SampleFormat::S24in32be) }
        else { None }
    }
}

/// Every native numeric sample-format value in the mirrored range maps to a
/// wrapped format and back to the identical numeric value, and every
/// wrapped format survives the round trip through its numeric value.
pub proof fn lemma_sample_format_round_trip(f: SampleFormat, raw: u32)
    ensures
        SampleFormat::decoded(f.raw()) == Some(f),
        SampleFormat::decoded(raw) matches Some(d) ==> d.raw() == raw,
{
}

/// A sample specification: format, sample rate and channel count.
#[derive(Debug, Copy, Clone, PartialEq, Eq, Structural)]
pub struct SampleSpec {
    /// The sample format.
    pub format: SampleFormat,
    /// The sample rate in samples per second, per channel.
    pub rate: u32,
    /// The number of channels.
    pub channels: u8,
}

impl SampleSpec {
    /// The specification carries a rate and a channel count inside the
    /// native library's bounds.
    pub open spec fn wf(self) -> bool {
        &&& 1 <= self.channels <= CHANNELS_MAX
        &&& 1 <= self.rate <= RATE_MAX
    }

    /// The size of one frame, in bytes, as a specification: one sample per
    /// channel.
    pub open spec fn frame_width(self) -> int {
        self.format.width() * self.channels
    }

    /// Whether the specification is within the native library's bounds.
    pub fn is_valid(&self) -> (r: bool)
        ensures
            r == self.wf(),
    {
        1 <= self.channels && self.channels <= CHANNELS_MAX && 1 <= self.rate
            && self.rate <= RATE_MAX
    }

    /// The size of one frame, in bytes: one sample per channel.
    pub fn frame_size(&self) -> (r: usize)
        requires
            self.wf(),
        ensures
            r == self.frame_width(),
            1 <= r <= 128,
    {
        self.format.size() * (self.channels as usize)
    }
}

} // verus!
