//! Voice engine of a small polyphonic software synthesizer.
//!
//! The library holds the parts of the synthesizer that decide: which voices
//! exist and in which stage of their life they are, what sound parameters a
//! new voice is born with, how raw MIDI bytes become note events, when a
//! released voice has sounded long enough to be dropped, how one stereo
//! sample is laid out over the channels of an output frame, and the colour
//! palette of the control surface.
//!
//! Signal generation itself (oscillators, envelopes, filters) works on
//! floating-point samples and lives with the application around the library.

pub mod waveform;
pub mod params;
pub mod voice;
pub mod registry;
pub mod midi;
pub mod engine;
pub mod frame;
pub mod styling;
pub mod playback;
