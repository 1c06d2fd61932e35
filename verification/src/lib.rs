pub mod chord;
pub mod clock;
pub mod driver;
pub mod note;

use vstd::prelude::*;

verus! {

/// The waveform shapes the tone generator can produce.
///
/// `Sine` and `Square` are single-oscillator shapes; `Saw` and `Triangle`
/// are built by additive synthesis over a fixed number of harmonics.
pub enum Wave {
    Sine,
    Square,
    Saw,
    Triangle,
}

} // verus!
