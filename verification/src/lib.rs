//! A capability model for audio hardware: discovering devices, negotiating a
//! sample format, and exchanging interleaved sample buffers with an output
//! device, with one backend per native audio subsystem.
//!
//! The native subsystem itself (the driver calls that open handles, block on
//! hardware readiness and move bytes) is an external collaborator: every
//! decision the library makes about its answers is verified, and the answers
//! enter as plain values.

use vstd::prelude::*;

pub mod alsa;
pub mod api;
pub mod com;
pub mod wasapi;

verus! {

/// How a single sample is represented in memory.
#[derive(Debug, Clone, Copy, PartialEq, Eq, Structural)]
pub enum SampleFormat {
    I16,
    U16,
    F32,
}

/// Sample rate in Hertz.
#[derive(Debug, Clone, Copy, PartialEq, Eq, Structural)]
pub struct SampleRate(pub u32);

/// The abstract stream format a caller asks a device to be configured with.
#[derive(Debug, Clone, Copy, PartialEq, Eq, Structural)]
pub struct Format {
    pub channels: u16,
    pub data_type: SampleFormat,
    pub sample_rate: SampleRate,
}

impl Format {
    /// A format is meaningful only with at least one channel and a positive
    /// sample rate.
    pub open spec fn valid(self) -> bool {
        &&& self.channels >= 1
        &&& self.sample_rate.0 >= 1
    }
}

/// Width in bytes of one sample of the given representation.
pub open spec fn sample_size_spec(data_type: SampleFormat) -> nat {
    match data_type {
        SampleFormat::I16 => 2,
        SampleFormat::U16 => 2,
        SampleFormat::F32 => 4,
    }
}

/// Width in bytes of one sample of the given representation.
pub fn sample_size(data_type: SampleFormat) -> (r: usize)
    ensures
        r == sample_size_spec(data_type),
{
    match data_type {
        SampleFormat::I16 => 2,
        SampleFormat::U16 => 2,
        SampleFormat::F32 => 4,
    }
}

} // verus!
