use vstd::prelude::*;

verus! {

/// Shape of the periodic signal an oscillator produces.
#[derive(Debug, Clone, Copy, PartialEq, Eq, Structural)]
pub enum Waveform {
    Sine,
    Triangle,
    Sawtooth,
    Square,
}

/// Display name of a waveform, as shown on the control surface.
pub open spec fn waveform_label(w: Waveform) -> Seq<char> {
    match w {
        Waveform::Sine => "Sine"@,
        Waveform::Triangle => "Triangle"@,
        Waveform::Sawtooth => "Sawtooth"@,
        Waveform::Square => "Square"@,
    }
}

impl Waveform {
    /// Every waveform, in the order the control surface lists them.
    pub const ALL: [Waveform; 4] = [
        Waveform::Sine,
        Waveform::Triangle,
        Waveform::Sawtooth,
        Waveform::Square,
    ];

    /// The display name of this waveform.
    pub fn label(&self) -> (r: &'static str)
        ensures
            r@ == waveform_label(*self),
    {
        match self {
            Waveform::Sine => "Sine",
            Waveform::Triangle => "Triangle",
            Waveform::Sawtooth => "Sawtooth",
            Waveform::Square => "Square",
        }
    }
}

impl Default for Waveform {
    fn default() -> (r: Waveform)
        ensures
            r == Waveform::Sine,
    {
        Waveform::Sine
    }
}

} // verus!
