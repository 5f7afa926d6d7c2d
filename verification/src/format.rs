use vstd::prelude::*;
use crate::error::AudioError;

verus! {

/// The native sample representation a hardware configuration reports.
#[derive(Clone, Copy, Debug, PartialEq, Eq, Structural)]
pub enum SampleFormat {
    I8,
    I16,
    I32,
    I64,
    U8,
    U16,
    U32,
    U64,
    F32,
    F64,
}

/// The sample encoding recorded in a WAV header: fixed-width integer
/// or floating point.
#[derive(Clone, Copy, Debug, PartialEq, Eq, Structural)]
pub enum WavSampleFormat {
    Int,
    Float,
}

/// The WAV header parameters derived from a device's configuration.
#[derive(Clone, Copy, Debug, PartialEq, Eq, Structural)]
pub struct WavFileSpec {
    pub channels: u16,
    pub sample_rate: u32,
    pub bits_per_sample: u16,
    pub sample_format: WavSampleFormat,
}

/// Whether a native format is a floating-point representation.
pub open spec fn is_float_format(f: SampleFormat) -> bool {
    f is F32 || f is F64
}

/// The width of one sample of the format, in bytes.
pub open spec fn spec_sample_size(f: SampleFormat) -> u16 {
    match f {
        SampleFormat::I8 => 1,
        SampleFormat::U8 => 1,
        SampleFormat::I16 => 2,
        SampleFormat::U16 => 2,
        SampleFormat::I32 => 4,
        SampleFormat::U32 => 4,
        SampleFormat::F32 => 4,
        SampleFormat::I64 => 8,
        SampleFormat::U64 => 8,
        SampleFormat::F64 => 8,
    }
}

/// The formats a capture stream can bridge into a WAV file.
pub open spec fn spec_supported(f: SampleFormat) -> bool {
    f is I8 || f is I16 || f is I32 || f is F32
}

/// Map a native format to the WAV sample encoding: floating-point
/// formats record as float, everything else as integer.
pub fn sample_format(format: SampleFormat) -> (w: WavSampleFormat)
    ensures
        w == (if is_float_format(format) {
            WavSampleFormat::Float
        } else {
            WavSampleFormat::Int
        }),
{
    match format {
        SampleFormat::F32 | SampleFormat::F64 => WavSampleFormat::Float,
        _ => WavSampleFormat::Int,
    }
}

/// The width of one sample of the format, in bytes.
pub fn sample_size(format: SampleFormat) -> (n: u16)
    ensures
        n == spec_sample_size(format),
{
    match format {
        SampleFormat::I8 | SampleFormat::U8 => 1,
        SampleFormat::I16 | SampleFormat::U16 => 2,
        SampleFormat::I32 | SampleFormat::U32 | SampleFormat::F32 => 4,
        SampleFormat::I64 | SampleFormat::U64 | SampleFormat::F64 => 8,
    }
}

/// Derive the WAV header parameters from a device configuration:
/// channel count and rate carried over, bit depth eight times the
/// sample width, encoding by [`sample_format`].
pub fn wav_spec_from_config(channels: u16, sample_rate: u32, format: SampleFormat) -> (s:
    WavFileSpec)
    ensures
        s.channels == channels,
        s.sample_rate == sample_rate,
        s.bits_per_sample == 8 * spec_sample_size(format),
        s.sample_format == (if is_float_format(format) {
            WavSampleFormat::Float
        } else {
            WavSampleFormat::Int
        }),
{
    WavFileSpec {
        channels,
        sample_rate,
        bits_per_sample: 8 * sample_size(format),
        sample_format: sample_format(format),
    }
}

/// Gate a stream on its native format: exactly the supported
/// fixed-width integer and floating formats pass; every other format
/// is rejected as unsupported.
pub fn check_format(format: SampleFormat) -> (r: Result<(), AudioError>)
    ensures
        r is Ok <==> spec_supported(format),
        r is Err ==> r->Err_0 == AudioError::UnsupportedFormat,
{
    match format {
        SampleFormat::I8 | SampleFormat::I16 | SampleFormat::I32 | SampleFormat::F32 => Ok(()),
        _ => Err(AudioError::UnsupportedFormat),
    }
}

} // verus!
