//! Settings of a spectral analyzer: transform length, downsampling and rate.
use crate::config::{self, Config};
use crate::window::{self, Window};
use vstd::prelude::*;

verus! {

/// The resolved shape of a Fourier analysis.
#[derive(Clone, Copy, Debug, PartialEq, Eq, Structural)]
pub struct FourierSettings {
    /// Number of samples per transform.
    pub length: usize,
    /// Stride at which samples are read.
    pub downsample: usize,
    /// Recording rate the samples must have.
    pub rate: usize,
}

impl FourierSettings {
    /// Settings from what a builder set, falling back to the configuration
    /// and then to the defaults of a spectral analyzer.
    pub fn resolve(
        length: Option<usize>,
        downsample: Option<usize>,
        rate: Option<usize>,
        config: &Config,
    ) -> (r: FourierSettings)
        ensures
            r.length == config::chosen(
                length,
                config.fourier_length,
                config::DEFAULT_FOURIER_LENGTH,
            ),
            r.downsample == config::chosen(
                downsample,
                config.fourier_downsample,
                config::DEFAULT_FOURIER_DOWNSAMPLE,
            ),
            r.rate == config::chosen(rate, config.rate, config::DEFAULT_RATE),
    {
        FourierSettings {
            length: config::pick(length, config.fourier_length, config::DEFAULT_FOURIER_LENGTH),
            downsample: config::pick(
                downsample,
                config.fourier_downsample,
                config::DEFAULT_FOURIER_DOWNSAMPLE,
            ),
            rate: config::pick(rate, config.rate, config::DEFAULT_RATE),
        }
    }

    /// Number of spectrum buckets a transform yields: half its length.
    pub fn buckets(&self) -> (r: usize)
        ensures
            r == self.length / 2,
    {
        self.length / 2
    }

    /// Whether one analysis reads no further back than a buffer of
    /// `buffer_len` samples reaches.
    pub fn fits(&self, buffer_len: usize) -> (r: bool)
        ensures
            r == (self.length * self.downsample <= buffer_len),
    {
        match self.length.checked_mul(self.downsample) {
            Some(span) => span <= buffer_len,
            None => false,
        }
    }
}

/// The window selected by the configuration, which is the rectangular one
/// when it names none; `None` where it names an unknown window.
pub fn configured_window(config: &Config) -> (r: Option<Window>)
    ensures
        r == window::window_named(
            match config.fourier_window {
                Some(s) => s@,
                None => "none"@,
            },
        ),
{
    match &config.fourier_window {
        Some(name) => window::from_str(name.as_str()),
        None => window::from_str("none"),
    }
}

} // verus!
