//! The settings that a conversion reads once per frame.

use crate::generation::Generation;
use crate::pitch::MAX_VQ_NUM_NEIGHBORS;
use crate::sample::Scalar;
use vstd::prelude::*;

verus! {

/// Bit pattern of 0.0.
pub const SCALAR_ZERO: Scalar = 0;

/// Bit pattern of 1.0.
pub const SCALAR_ONE: Scalar = 0x3FF0_0000_0000_0000;

/// Bit pattern of 52.0, the pitch around which the newest generation scales
/// intonation.
pub const AVERAGE_SOURCE_PITCH_NEWEST: Scalar = 0x404A_0000_0000_0000;

/// Bit pattern of 60.0, the pitch around which the earlier generations scale
/// intonation.
pub const AVERAGE_SOURCE_PITCH_EARLIER: Scalar = 0x404E_0000_0000_0000;

/// Bit pattern of 33.125, the lowest source pitch in semitones.
pub const MIN_SOURCE_PITCH: Scalar = 0x4040_9000_0000_0000;

/// Bit pattern of 80.875, the highest source pitch in semitones.
pub const MAX_SOURCE_PITCH: Scalar = 0x4054_3800_0000_0000;

/// The settings of a conversion. Real values are held as bit patterns.
#[derive(Debug, Clone, Copy, PartialEq, Eq, Structural)]
pub struct BeatriceInfo {
    /// Speaker to convert to; the position after the last speaker is the
    /// neutral speaker.
    pub target_speaker: i32,
    pub formant_shift: Scalar,
    /// Pitch shift in semitones.
    pub pitch_shift: Scalar,
    /// Number of speakers of the loaded model.
    pub n_speakers: i32,
    pub average_source_pitch: Scalar,
    pub intonation_intensity: Scalar,
    /// Strength of the pitch correction; zero switches it off.
    pub pitch_correction: Scalar,
    pub pitch_correction_type: i32,
    pub min_source_pitch: Scalar,
    pub max_source_pitch: Scalar,
    pub vq_num_neighbors: i32,
}

impl BeatriceInfo {
    /// The settings that a freshly loaded model of a generation starts with.
    pub open spec fn spec_for_generation(generation: Generation) -> BeatriceInfo {
        BeatriceInfo {
            target_speaker: 0,
            formant_shift: SCALAR_ZERO,
            pitch_shift: SCALAR_ZERO,
            n_speakers: 0,
            average_source_pitch: if generation == Generation::Rc0 {
                AVERAGE_SOURCE_PITCH_NEWEST
            } else {
                AVERAGE_SOURCE_PITCH_EARLIER
            },
            intonation_intensity: SCALAR_ONE,
            pitch_correction: SCALAR_ZERO,
            pitch_correction_type: 0,
            min_source_pitch: MIN_SOURCE_PITCH,
            max_source_pitch: MAX_SOURCE_PITCH,
            vq_num_neighbors: 0,
        }
    }

    /// The target speaker is a speaker of the model or the neutral speaker,
    /// and the neighbour count is in its range.
    pub open spec fn wf(self) -> bool {
        &&& 0 <= self.n_speakers
        &&& 0 <= self.target_speaker <= self.n_speakers
        &&& 0 <= self.vq_num_neighbors <= MAX_VQ_NUM_NEIGHBORS
    }

    /// The settings that a freshly loaded model of a generation starts with.
    pub fn for_generation(generation: Generation) -> (info: BeatriceInfo)
        ensures
            info == Self::spec_for_generation(generation),
            info.wf(),
    {
        let average_source_pitch = match generation {
            Generation::Rc0 => AVERAGE_SOURCE_PITCH_NEWEST,
            _ => AVERAGE_SOURCE_PITCH_EARLIER,
        };
        BeatriceInfo {
            target_speaker: 0,
            formant_shift: SCALAR_ZERO,
            pitch_shift: SCALAR_ZERO,
            n_speakers: 0,
            average_source_pitch,
            intonation_intensity: SCALAR_ONE,
            pitch_correction: SCALAR_ZERO,
            pitch_correction_type: 0,
            min_source_pitch: MIN_SOURCE_PITCH,
            max_source_pitch: MAX_SOURCE_PITCH,
            vq_num_neighbors: 0,
        }
    }
}

impl Default for BeatriceInfo {
    /// The settings of the newest generation.
    fn default() -> (info: BeatriceInfo)
        ensures
            info == BeatriceInfo::spec_for_generation(Generation::Rc0),
    {
        BeatriceInfo::for_generation(Generation::Rc0)
    }
}

} // verus!
