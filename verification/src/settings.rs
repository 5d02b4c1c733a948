//! Parameters that fix how a synthesizer renders.

use crate::error::SynthesizerError;
use vstd::prelude::*;

verus! {

/// A sample rate, in Hz, that an engine can render at.
pub open spec fn sample_rate_in_range(value: int) -> bool {
    16_000 <= value <= 192_000
}

/// A block size, in frames, that an engine can render with.
pub open spec fn block_size_in_range(value: int) -> bool {
    8 <= value <= 1024
}

/// A number of voices that an engine can hold in its pool.
pub open spec fn maximum_polyphony_in_range(value: int) -> bool {
    8 <= value <= 256
}

/// Specifies a set of parameters for synthesis.
#[derive(Copy, Clone)]
pub struct SynthesizerSettings {
    /// The sample rate for synthesis, in Hz.
    pub sample_rate: i32,
    /// The block size for rendering waveform, in frames.
    pub block_size: usize,
    /// The number of maximum polyphony.
    pub maximum_polyphony: usize,
    /// The value indicating whether reverb and chorus are enabled.
    pub enable_reverb_and_chorus: bool,
}

impl Default for SynthesizerSettings {
    /// 44.1 kHz, blocks of 64 frames, 64 voices, reverb and chorus enabled.
    fn default() -> (settings: Self)
        ensures
            settings == Self::spec_default(),
    {
        Self {
            sample_rate: 44100,
            block_size: 64,
            maximum_polyphony: 64,
            enable_reverb_and_chorus: true,
        }
    }
}

impl SynthesizerSettings {
    /// The settings an engine uses when the caller chooses nothing.
    pub open spec fn spec_default() -> Self {
        SynthesizerSettings {
            sample_rate: 44100,
            block_size: 64,
            maximum_polyphony: 64,
            enable_reverb_and_chorus: true,
        }
    }

    /// The default settings with the sample rate replaced by `sample_rate`.
    pub open spec fn spec_new(sample_rate: i32) -> Self {
        SynthesizerSettings { sample_rate, ..Self::spec_default() }
    }

    /// What checking a sample rate yields: success inside the range, otherwise
    /// the error that carries the rate.
    pub open spec fn sample_rate_check(value: i32) -> Result<(), SynthesizerError> {
        if sample_rate_in_range(value as int) {
            Ok(())
        } else {
            Err(SynthesizerError::SampleRateOutOfRange(value))
        }
    }

    /// What checking a block size yields: success inside the range, otherwise
    /// the error that carries the size.
    pub open spec fn block_size_check(value: usize) -> Result<(), SynthesizerError> {
        if block_size_in_range(value as int) {
            Ok(())
        } else {
            Err(SynthesizerError::BlockSizeOutOfRange(value))
        }
    }

    /// What checking a maximum polyphony yields: success inside the range,
    /// otherwise the error that carries the number.
    pub open spec fn maximum_polyphony_check(value: usize) -> Result<(), SynthesizerError> {
        if maximum_polyphony_in_range(value as int) {
            Ok(())
        } else {
            Err(SynthesizerError::MaximumPolyphonyOutOfRange(value))
        }
    }

    /// All three ranged parameters lie inside their ranges.
    pub open spec fn is_valid(&self) -> bool {
        &&& sample_rate_in_range(self.sample_rate as int)
        &&& block_size_in_range(self.block_size as int)
        &&& maximum_polyphony_in_range(self.maximum_polyphony as int)
    }

    /// What validating these settings yields: the outcome of the first check
    /// that fails, taken in the order sample rate, block size, maximum
    /// polyphony, or success where none fails.
    pub open spec fn validation(&self) -> Result<(), SynthesizerError> {
        if Self::sample_rate_check(self.sample_rate) is Err {
            Self::sample_rate_check(self.sample_rate)
        } else if Self::block_size_check(self.block_size) is Err {
            Self::block_size_check(self.block_size)
        } else {
            Self::maximum_polyphony_check(self.maximum_polyphony)
        }
    }

    /// Initializes a new instance of synthesizer settings.
    ///
    /// # Arguments
    ///
    /// * `sample_rate` - The sample rate for synthesis.
    ///
    /// Every other parameter takes its default. The rate is stored as given,
    /// whether or not an engine would accept it: [`Self::validate`] decides that.
    #[verifier::when_used_as_spec(spec_new)]
    pub fn new(sample_rate: i32) -> (settings: Self)
        ensures
            settings == Self::spec_new(sample_rate),
    {
        Self { sample_rate, ..Default::default() }
    }

    /// Decides whether an engine may be built from these settings.
    ///
    /// The sample rate is examined first, then the block size, then the maximum
    /// polyphony. The first one found outside its range is reported together
    /// with its value, and the later ones are not looked at.
    pub fn validate(&self) -> (result: Result<(), SynthesizerError>)
        ensures
            result == self.validation(),
            result is Ok <==> self.is_valid(),
    {
        SynthesizerSettings::check_sample_rate(self.sample_rate)?;
        SynthesizerSettings::check_block_size(self.block_size)?;
        SynthesizerSettings::check_maximum_polyphony(self.maximum_polyphony)?;

        Ok(())
    }

    /// Accepts a sample rate from 16 000 Hz to 192 000 Hz, both included.
    pub fn check_sample_rate(value: i32) -> (result: Result<(), SynthesizerError>)
        ensures
            result == Self::sample_rate_check(value),
    {
        if value < 16_000 || value > 192_000 {
            return Err(SynthesizerError::SampleRateOutOfRange(value));
        }

        Ok(())
    }

    /// Accepts a block size from 8 to 1024 frames, both included.
    pub fn check_block_size(value: usize) -> (result: Result<(), SynthesizerError>)
        ensures
            result == Self::block_size_check(value),
    {
        if value < 8 || value > 1024 {
            return Err(SynthesizerError::BlockSizeOutOfRange(value));
        }

        Ok(())
    }

    /// Accepts a maximum polyphony from 8 to 256 voices, both included.
    pub fn check_maximum_polyphony(value: usize) -> (result: Result<(), SynthesizerError>)
        ensures
            result == Self::maximum_polyphony_check(value),
    {
        if value < 8 || value > 256 {
            return Err(SynthesizerError::MaximumPolyphonyOutOfRange(value));
        }

        Ok(())
    }

    /// Validation succeeds on exactly the settings whose sample rate, block size
    /// and maximum polyphony all lie inside their ranges.
    pub proof fn lemma_validation_succeeds_iff_valid(self)
        ensures
            self.validation() is Ok <==> self.is_valid(),
    {
    }

    /// Settings with a parameter outside its range are rejected, and the error
    /// is the one that belongs to the first such parameter, in the order sample
    /// rate, block size, maximum polyphony, carrying the rejected value.
    pub proof fn lemma_out_of_range_is_rejected(self)
        requires
            !self.is_valid(),
        ensures
            self.validation() is Err,
            !sample_rate_in_range(self.sample_rate as int) ==> self.validation()->Err_0
                == SynthesizerError::SampleRateOutOfRange(self.sample_rate),
            sample_rate_in_range(self.sample_rate as int) && !block_size_in_range(
                self.block_size as int,
            ) ==> self.validation()->Err_0 == SynthesizerError::BlockSizeOutOfRange(
                self.block_size,
            ),
            sample_rate_in_range(self.sample_rate as int) && block_size_in_range(
                self.block_size as int,
            ) && !maximum_polyphony_in_range(self.maximum_polyphony as int)
                ==> self.validation()->Err_0 == SynthesizerError::MaximumPolyphonyOutOfRange(
                self.maximum_polyphony,
            ),
    {
    }

    /// Whatever error validation reports, it carries a parameter of these very
    /// settings, and that parameter lies outside its range. Validation never
    /// reports an invalid SoundFont or mismatched render buffers.
    pub proof fn lemma_rejection_names_an_offender(self)
        requires
            self.validation() is Err,
        ensures
            match self.validation()->Err_0 {
                SynthesizerError::SampleRateOutOfRange(value) => value == self.sample_rate
                    && !sample_rate_in_range(value as int),
                SynthesizerError::BlockSizeOutOfRange(value) => value == self.block_size
                    && !block_size_in_range(value as int),
                SynthesizerError::MaximumPolyphonyOutOfRange(value) => value
                    == self.maximum_polyphony && !maximum_polyphony_in_range(value as int),
                SynthesizerError::SoundFontInvalid(_) => false,
                SynthesizerError::RenderBufferMismatch => false,
            },
    {
    }

    /// The default settings pass validation.
    pub proof fn lemma_default_is_valid()
        ensures
            Self::spec_default().is_valid(),
            Self::spec_default().validation() is Ok,
    {
    }

    /// Settings made from a sample rate alone stand or fall with that rate:
    /// validating them yields what checking the rate yields.
    pub proof fn lemma_new_is_valid_iff_rate_in_range(sample_rate: i32)
        ensures
            Self::new(sample_rate).validation() == Self::sample_rate_check(sample_rate),
            Self::new(sample_rate).is_valid() <==> sample_rate_in_range(sample_rate as int),
    {
    }

    /// Validation reads the three ranged parameters only: switching reverb and
    /// chorus on or off never changes its outcome.
    pub proof fn lemma_validation_ignores_effects(self, enable_reverb_and_chorus: bool)
        ensures
            (SynthesizerSettings { enable_reverb_and_chorus, ..self }).validation()
                == self.validation(),
    {
    }
}

} // verus!
