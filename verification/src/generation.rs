//! The three model generations and how a version string selects one.

use crate::errors::BeatriceError;
use crate::text::has_prefix;
use crate::text::starts_with;
use crate::text::str_equal;
use vstd::prelude::*;
use vstd::string::*;

verus! {

/// Samples that one conversion step consumes, at 16 kHz.
pub const BEATRICE_IN_HOP_LENGTH: usize = 160;

/// Samples that one conversion step produces, at 24 kHz.
pub const BEATRICE_OUT_HOP_LENGTH: usize = 240;

/// Pitch bins per octave, in every generation.
pub const BEATRICE_PITCH_BINS_PER_OCTAVE: usize = 96;

/// Pitch bins per semitone.
pub const PITCH_BINS_PER_SEMITONE: usize = 8;

/// Length of one row of a speaker or formant-shift embedding table.
pub const BEATRICE_WAVEFORM_GENERATOR_HIDDEN_CHANNELS: usize = 256;

/// Sample rate of the model's input.
pub const BEATRICE_IN_SAMPLE_RATE: usize = 16000;

/// Sample rate of the model's output.
pub const BEATRICE_OUT_SAMPLE_RATE: usize = 24000;

pub const BEATRICE_20A2_PHONE_CHANNELS: usize = 256;

pub const BEATRICE_20A2_PITCH_BINS: usize = 384;

pub const BEATRICE_20B1_PHONE_CHANNELS: usize = 256;

pub const BEATRICE_20B1_PITCH_BINS: usize = 384;

pub const BEATRICE_20RC0_PHONE_CHANNELS: usize = 128;

pub const BEATRICE_20RC0_PITCH_BINS: usize = 448;

pub const BEATRICE_20RC0_CODEBOOK_SIZE: usize = 512;

pub const BEATRICE_20RC0_KV_LENGTH: usize = 384;

pub const BEATRICE_20RC0_KV_SPEAKER_EMBEDDING_CHANNELS: usize = 128;

/// Conversion steps that it takes to install a key/value speaker embedding.
pub const BEATRICE_20RC0_N_BLOCKS: usize = 4;

/// A model generation. The generations differ in the layout of their
/// parameters, in the resolution of their pitch scale and in how a speaker is
/// selected.
#[derive(Debug, Clone, Copy, PartialEq, Eq, Structural)]
pub enum Generation {
    /// Versions `2.0.0-alpha*`.
    Alpha,
    /// Version `2.0.0-beta.1`.
    Beta1,
    /// Version `2.0.0-rc.0`.
    Rc0,
}

impl Generation {
    /// The generation that a manifest's version string selects: the two later
    /// generations by their exact version, the first by its prefix.
    pub open spec fn spec_from_version(version: Seq<char>) -> Option<Generation> {
        if version == "2.0.0-rc.0"@ {
            Some(Generation::Rc0)
        } else if version == "2.0.0-beta.1"@ {
            Some(Generation::Beta1)
        } else if has_prefix(version, "2.0.0-alpha"@) {
            Some(Generation::Alpha)
        } else {
            None
        }
    }

    /// Selects the generation for a manifest's version string. A version that
    /// no generation answers to cannot be loaded.
    pub fn from_version(version: &str) -> (r: Result<Generation, BeatriceError>)
        ensures
            r is Ok <==> Self::spec_from_version(version@) is Some,
            r is Ok ==> Some(r->Ok_0) == Self::spec_from_version(version@),
            r is Err ==> r->Err_0 == BeatriceError::FileOpenError,
    {
        if str_equal(version, "2.0.0-rc.0") {
            Ok(Generation::Rc0)
        } else if str_equal(version, "2.0.0-beta.1") {
            Ok(Generation::Beta1)
        } else if starts_with(version, "2.0.0-alpha") {
            Ok(Generation::Alpha)
        } else {
            Err(BeatriceError::FileOpenError)
        }
    }

    /// The version that a model of this generation reports.
    pub open spec fn spec_version(self) -> Seq<char> {
        match self {
            Generation::Alpha => "2.0.0-alpha"@,
            Generation::Beta1 => "2.0.0-beta.1"@,
            Generation::Rc0 => "2.0.0-rc.0"@,
        }
    }

    /// The version that a model of this generation reports.
    pub fn version(self) -> (s: &'static str)
        ensures
            s@ == self.spec_version(),
    {
        match self {
            Generation::Alpha => "2.0.0-alpha",
            Generation::Beta1 => "2.0.0-beta.1",
            Generation::Rc0 => "2.0.0-rc.0",
        }
    }

    /// Number of bins of the generation's pitch scale.
    pub open spec fn spec_pitch_bins(self) -> int {
        match self {
            Generation::Alpha => 384,
            Generation::Beta1 => 384,
            Generation::Rc0 => 448,
        }
    }

    /// Number of bins of the generation's pitch scale.
    pub fn pitch_bins(self) -> (n: usize)
        ensures
            n == self.spec_pitch_bins(),
    {
        match self {
            Generation::Alpha => BEATRICE_20A2_PITCH_BINS,
            Generation::Beta1 => BEATRICE_20B1_PITCH_BINS,
            Generation::Rc0 => BEATRICE_20RC0_PITCH_BINS,
        }
    }

    /// Length of the phone vector that the generation's extractor produces.
    pub open spec fn spec_phone_channels(self) -> int {
        match self {
            Generation::Alpha => 256,
            Generation::Beta1 => 256,
            Generation::Rc0 => 128,
        }
    }

    /// Length of the phone vector that the generation's extractor produces.
    pub fn phone_channels(self) -> (n: usize)
        ensures
            n == self.spec_phone_channels(),
    {
        match self {
            Generation::Alpha => BEATRICE_20A2_PHONE_CHANNELS,
            Generation::Beta1 => BEATRICE_20B1_PHONE_CHANNELS,
            Generation::Rc0 => BEATRICE_20RC0_PHONE_CHANNELS,
        }
    }

    /// Whether the generation has source pitch bounds, a neighbour count and
    /// key/value speaker embeddings.
    pub open spec fn spec_is_newest(self) -> bool {
        self == Generation::Rc0
    }

    /// Whether the generation has source pitch bounds, a neighbour count and
    /// key/value speaker embeddings.
    pub fn is_newest(self) -> (b: bool)
        ensures
            b == self.spec_is_newest(),
    {
        match self {
            Generation::Rc0 => true,
            _ => false,
        }
    }
}

/// Every version that a generation reports selects that generation again.
pub proof fn lemma_version_round_trip(g: Generation)
    ensures
        Generation::spec_from_version(g.spec_version()) == Some(g),
{
    reveal_strlit("2.0.0-rc.0");
    reveal_strlit("2.0.0-beta.1");
    reveal_strlit("2.0.0-alpha");
    match g {
        Generation::Alpha => {
            assert("2.0.0-alpha"@.subrange(0, 11) =~= "2.0.0-alpha"@);
        },
        Generation::Beta1 => {
            assert("2.0.0-beta.1"@.len() == 12);
        },
        Generation::Rc0 => {},
    }
}

} // verus!
