//! Verified core of an audio-visualization framework: the sample ring, the
//! integer side of spectrum handling, beat-trend tracking, frame pacing and
//! the builders that configure recorders and detectors.
pub mod beat;
pub mod config;
pub mod fourier;
pub mod frames;
pub mod maxima;
pub mod rebin;
pub mod recorder;
pub mod samples;
pub mod window;
