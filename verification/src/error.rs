//! The error type shared by synthesizer construction and rendering.

use vstd::prelude::*;

verus! {

/// What can go wrong when a synthesizer is built or asked to render.
///
/// The three `OutOfRange` kinds carry the rejected value itself, so that a caller
/// can report it without keeping the settings around.
#[derive(Debug, PartialEq, Eq)]
pub enum SynthesizerError {
    /// The sample rate, in Hz, lies outside 16 000 ..= 192 000.
    SampleRateOutOfRange(i32),
    /// The block size, in frames, lies outside 8 ..= 1024.
    BlockSizeOutOfRange(usize),
    /// The maximum polyphony, in voices, lies outside 8 ..= 256.
    MaximumPolyphonyOutOfRange(usize),
    /// The SoundFont could not be used; the text says why.
    SoundFontInvalid(String),
    /// The left and right output buffers differ in length.
    RenderBufferMismatch,
}

impl Clone for SynthesizerError {
    fn clone(&self) -> (copy: Self)
        ensures
            copy == *self,
    {
        match self {
            SynthesizerError::SampleRateOutOfRange(value) => {
                SynthesizerError::SampleRateOutOfRange(*value)
            },
            SynthesizerError::BlockSizeOutOfRange(value) => {
                SynthesizerError::BlockSizeOutOfRange(*value)
            },
            SynthesizerError::MaximumPolyphonyOutOfRange(value) => {
                SynthesizerError::MaximumPolyphonyOutOfRange(*value)
            },
            SynthesizerError::SoundFontInvalid(detail) => {
                SynthesizerError::SoundFontInvalid(detail.clone())
            },
            SynthesizerError::RenderBufferMismatch => SynthesizerError::RenderBufferMismatch,
        }
    }
}

} // verus!
