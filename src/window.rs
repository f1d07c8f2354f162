//! Window functions, selected by name.
use vstd::prelude::*;

verus! {

/// A window function applied to the samples before the Fourier transform.
#[derive(Clone, Copy, Debug, PartialEq, Eq, Structural)]
pub enum Window {
    /// Blackman window.
    Blackman,
    /// Hamming window.
    Hamming,
    /// Hann window.
    Hanning,
    /// No window: every coefficient is one.
    Rectangular,
    /// Nuttall window.
    Nuttall,
    /// Sine window.
    Sine,
    /// Triangular window.
    Triangular,
}

/// The window a name selects, if any.
pub open spec fn window_named(name: Seq<char>) -> Option<Window> {
    if name == "blackman"@ {
        Some(Window::Blackman)
    } else if name == "hamming"@ {
        Some(Window::Hamming)
    } else if name == "hanning"@ {
        Some(Window::Hanning)
    } else if name == "none"@ {
        Some(Window::Rectangular)
    } else if name == "nuttall"@ {
        Some(Window::Nuttall)
    } else if name == "sine"@ {
        Some(Window::Sine)
    } else if name == "triangular"@ {
        Some(Window::Triangular)
    } else {
        None
    }
}

/// Get the window function for the specified name: one of `blackman`,
/// `hamming`, `hanning`, `none`, `nuttall`, `sine` and `triangular`.
pub fn from_str(name: &str) -> (r: Option<Window>)
    ensures
        r == window_named(name@),
{
    let name = name.to_owned();
    if name == "blackman".to_owned() {
        Some(Window::Blackman)
    } else if name == "hamming".to_owned() {
        Some(Window::Hamming)
    } else if name == "hanning".to_owned() {
        Some(Window::Hanning)
    } else if name == "none".to_owned() {
        Some(Window::Rectangular)
    } else if name == "nuttall".to_owned() {
        Some(Window::Nuttall)
    } else if name == "sine".to_owned() {
        Some(Window::Sine)
    } else if name == "triangular".to_owned() {
        Some(Window::Triangular)
    } else {
        None
    }
}

} // verus!
