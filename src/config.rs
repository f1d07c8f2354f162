//! Explicit configuration: the values a configuration source supplied, and
//! how a builder's own settings, the configuration and the built-in defaults
//! combine.
use vstd::prelude::*;

verus! {

/// Recording rate used when neither a builder nor the configuration sets one.
pub const DEFAULT_RATE: usize = 8000;

/// Sample buffer length used by default.
pub const DEFAULT_BUFFER_SIZE: usize = 16000;

/// Read size of the PulseAudio recorder by default.
pub const DEFAULT_READ_SIZE: usize = 32;

/// Read size of the cpal recorder by default.
pub const DEFAULT_CPAL_READ_SIZE: usize = 256;

/// Fourier length of a spectral analyzer by default.
pub const DEFAULT_FOURIER_LENGTH: usize = 512;

/// Downsampling factor of a spectral analyzer by default.
pub const DEFAULT_FOURIER_DOWNSAMPLE: usize = 5;

/// Fourier length of a beat detector by default.
pub const DEFAULT_BEAT_FOURIER_LENGTH: usize = 16;

/// Downsampling factor of a beat detector by default.
pub const DEFAULT_BEAT_DOWNSAMPLE: usize = 10;

/// The integer and text values of a configuration source; `None` where the
/// source does not set a key.
pub struct Config {
    /// `audio.rate`
    pub rate: Option<usize>,
    /// `audio.buffer`
    pub buffer: Option<usize>,
    /// `audio.read_size`
    pub read_size: Option<usize>,
    /// `audio.recorder`
    pub recorder: Option<String>,
    /// `audio.conversions`
    pub conversions: Option<usize>,
    /// `audio.fourier.length`
    pub fourier_length: Option<usize>,
    /// `audio.fourier.window`
    pub fourier_window: Option<String>,
    /// `audio.fourier.downsample`
    pub fourier_downsample: Option<usize>,
    /// `audio.beat.fourier_length`
    pub beat_fourier_length: Option<usize>,
    /// `audio.beat.downsample`
    pub beat_downsample: Option<usize>,
    /// `pulse.device`
    pub pulse_device: Option<String>,
}

impl Config {
    /// A configuration that sets nothing.
    pub fn empty() -> (r: Config)
        ensures
            r.rate.is_none(),
            r.buffer.is_none(),
            r.read_size.is_none(),
            r.recorder.is_none(),
            r.conversions.is_none(),
            r.fourier_length.is_none(),
            r.fourier_window.is_none(),
            r.fourier_downsample.is_none(),
            r.beat_fourier_length.is_none(),
            r.beat_downsample.is_none(),
            r.pulse_device.is_none(),
    {
        Config {
            rate: None,
            buffer: None,
            read_size: None,
            recorder: None,
            conversions: None,
            fourier_length: None,
            fourier_window: None,
            fourier_downsample: None,
            beat_fourier_length: None,
            beat_downsample: None,
            pulse_device: None,
        }
    }
}

/// The value in force: the one set, else the configured one, else `default`.
pub open spec fn chosen(set: Option<usize>, configured: Option<usize>, default: usize) -> usize {
    match set {
        Some(v) => v,
        None => match configured {
            Some(v) => v,
            None => default,
        },
    }
}

/// The value in force: the one set, else the configured one, else `default`.
pub fn pick(set: Option<usize>, configured: Option<usize>, default: usize) -> (r: usize)
    ensures
        r == chosen(set, configured, default),
{
    match set {
        Some(v) => v,
        None => match configured {
            Some(v) => v,
            None => default,
        },
    }
}

/// The characters of an optional text.
pub open spec fn text_of(t: Option<String>) -> Option<Seq<char>> {
    match t {
        Some(s) => Some(s@),
        None => None,
    }
}

/// The text in force: the one set, else the configured one, else none.
pub open spec fn chosen_text(set: Option<String>, configured: Option<String>) -> Option<Seq<char>> {
    match set {
        Some(s) => Some(s@),
        None => text_of(configured),
    }
}

/// The text in force: the one set, else the configured one, else none.
pub fn pick_text(set: &Option<String>, configured: &Option<String>) -> (r: Option<String>)
    ensures
        text_of(r) == chosen_text(*set, *configured),
{
    match set {
        Some(s) => Some(s.clone()),
        None => match configured {
            Some(s) => Some(s.clone()),
            None => None,
        },
    }
}

} // verus!
