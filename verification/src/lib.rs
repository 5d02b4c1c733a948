//! Settings and errors of a SoundFont wavetable synthesizer.
//!
//! A synthesizer renders stereo audio block by block from a stream of note and
//! controller events. Before any sound is produced, the caller fixes the output
//! sample rate, the block length, the voice budget and the effect sends in a
//! [`SynthesizerSettings`] value; [`SynthesizerSettings::validate`] decides whether
//! an engine may be built from it and, if not, reports the offending value as a
//! [`SynthesizerError`].

pub mod error;
pub mod settings;

pub use error::SynthesizerError;
pub use settings::SynthesizerSettings;
