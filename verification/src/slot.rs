//! The place of the active model.
//!
//! At most one model is active. A load that succeeds replaces it; a load that
//! fails leaves it as it was. Every command that needs a model is refused
//! with `ModelNotLoaded` while the place is empty.

use crate::beatrice::Beatrice;
use crate::beatrice::BeatriceView;
use crate::beatrice::FrameSetup;
use crate::embedding::KeyValueWarmup;
use crate::errors::BeatriceError;
use crate::frames::held_after;
use crate::frames::hop_count;
use crate::frames::joined;
use crate::generation::Generation;
use crate::generation::BEATRICE_IN_HOP_LENGTH;
use crate::params::BeatriceInfo;
use crate::pitch::clamped;
use crate::pitch::FORMANT_SHIFT_POSITIONS;
use crate::pitch::MAX_VQ_NUM_NEIGHBORS;
use crate::sample::Sample;
use crate::sample::Scalar;
use vstd::prelude::*;

verus! {

/// The active model, if there is one.
pub struct ModelSlot {
    pub active: Option<Beatrice>,
}

impl ModelSlot {
    /// What the active model holds.
    pub open spec fn model(&self) -> BeatriceView {
        self.active->0@
    }

    /// Whether a command was refused for want of a model, the place staying
    /// empty.
    pub open spec fn refused<T>(&self, before: &ModelSlot, r: Result<T, BeatriceError>) -> bool {
        r == Err::<T, BeatriceError>(BeatriceError::ModelNotLoaded) && before.active is None
            && self.active is None
    }

    /// A place without a model.
    pub fn new() -> (slot: ModelSlot)
        ensures
            slot.active is None,
    {
        ModelSlot { active: None }
    }

    /// Whether a model is active.
    pub fn is_loaded(&self) -> (b: bool)
        ensures
            b == self.active is Some,
    {
        self.active.is_some()
    }

    /// Takes the outcome of a load. A loaded model becomes the active one in
    /// place of the one before it. A failed load changes nothing and its
    /// error is passed on.
    pub fn install(&mut self, outcome: Result<Beatrice, BeatriceError>) -> (r: Result<
        (),
        BeatriceError,
    >)
        ensures
            outcome is Ok ==> r is Ok && final(self).active == Some(outcome->Ok_0),
            outcome is Err ==> r == Err::<(), BeatriceError>(outcome->Err_0) && final(self).active
                == old(self).active,
    {
        match outcome {
            Ok(model) => {
                self.active = Some(model);
                Ok(())
            },
            Err(error) => Err(error),
        }
    }

    /// The number of speakers of the active model.
    pub fn get_n_speaker(&self) -> (n: Option<i32>)
        ensures
            self.active is None ==> n is None,
            self.active is Some ==> n == Some(self.model().info.n_speakers),
    {
        match &self.active {
            Some(model) => model.get_n_speaker(),
            None => None,
        }
    }

    /// The version of the active model.
    pub fn get_version(&self) -> (v: Option<String>)
        ensures
            v is Some <==> self.active is Some,
            v is Some ==> v->0@ == self.model().generation.spec_version(),
    {
        match &self.active {
            Some(model) => Some(model.get_model_version()),
            None => None,
        }
    }

    /// Selects the target speaker of the active model: any of its speakers or
    /// the neutral speaker after them.
    pub fn set_target_speaker(&mut self, target: i32) -> (r: Result<(), BeatriceError>)
        ensures
            old(self).active is None ==> final(self).refused(old(self), r),
            old(self).active is Some ==> {
                &&& final(self).active is Some
                &&& r is Ok <==> 0 <= target <= old(self).model().info.n_speakers
                &&& r is Err ==> r->Err_0 == BeatriceError::SpeakerOutOfRange
                &&& r is Err ==> final(self).model() == old(self).model()
                &&& r is Ok ==> final(self).model() == (BeatriceView {
                    info: BeatriceInfo { target_speaker: target, ..old(self).model().info },
                    warmup: KeyValueWarmup { warmed_count: 0 },
                    ..old(self).model()
                })
            },
    {
        match &mut self.active {
            Some(model) => {
                if target < 0 {
                    Err(BeatriceError::SpeakerOutOfRange)
                } else {
                    model.set_target_speaker(target as u32)
                }
            },
            None => Err(BeatriceError::ModelNotLoaded),
        }
    }

    /// Sets the pitch shift of the active model, in semitones.
    pub fn set_pitch_shift(&mut self, pitch_shift: Scalar) -> (r: Result<(), BeatriceError>)
        ensures
            old(self).active is None ==> final(self).refused(old(self), r),
            old(self).active is Some ==> {
                &&& r is Ok
                &&& final(self).active is Some
                &&& final(self).model() == (BeatriceView {
                    info: BeatriceInfo { pitch_shift, ..old(self).model().info },
                    ..old(self).model()
                })
            },
    {
        match &mut self.active {
            Some(model) => {
                model.set_pitch_shift(pitch_shift);
                Ok(())
            },
            None => Err(BeatriceError::ModelNotLoaded),
        }
    }

    /// Sets the pitch around which the active model scales intonation.
    pub fn set_average_source_pitch(&mut self, average_source_pitch: Scalar) -> (r: Result<
        (),
        BeatriceError,
    >)
        ensures
            old(self).active is None ==> final(self).refused(old(self), r),
            old(self).active is Some ==> {
                &&& r is Ok
                &&& final(self).active is Some
                &&& final(self).model() == (BeatriceView {
                    info: BeatriceInfo { average_source_pitch, ..old(self).model().info },
                    ..old(self).model()
                })
            },
    {
        match &mut self.active {
            Some(model) => {
                model.set_average_source_pitch(average_source_pitch);
                Ok(())
            },
            None => Err(BeatriceError::ModelNotLoaded),
        }
    }

    /// Sets the intonation intensity of the active model.
    pub fn set_intonation_intensity(&mut self, intonation_intensity: Scalar) -> (r: Result<
        (),
        BeatriceError,
    >)
        ensures
            old(self).active is None ==> final(self).refused(old(self), r),
            old(self).active is Some ==> {
                &&& r is Ok
                &&& final(self).active is Some
                &&& final(self).model() == (BeatriceView {
                    info: BeatriceInfo { intonation_intensity, ..old(self).model().info },
                    ..old(self).model()
                })
            },
    {
        match &mut self.active {
            Some(model) => {
                model.set_intonation_intensity(intonation_intensity);
                Ok(())
            },
            None => Err(BeatriceError::ModelNotLoaded),
        }
    }

    /// Sets the strength of the pitch correction of the active model.
    pub fn set_pitch_correction(&mut self, pitch_correction: Scalar) -> (r: Result<
        (),
        BeatriceError,
    >)
        ensures
            old(self).active is None ==> final(self).refused(old(self), r),
            old(self).active is Some ==> {
                &&& r is Ok
                &&& final(self).active is Some
                &&& final(self).model() == (BeatriceView {
                    info: BeatriceInfo { pitch_correction, ..old(self).model().info },
                    ..old(self).model()
                })
            },
    {
        match &mut self.active {
            Some(model) => {
                model.set_pitch_correction(pitch_correction);
                Ok(())
            },
            None => Err(BeatriceError::ModelNotLoaded),
        }
    }

    /// Sets the code of the pitch correction curve of the active model.
    pub fn set_pitch_correction_type(&mut self, pitch_correction_type: i32) -> (r: Result<
        (),
        BeatriceError,
    >)
        ensures
            old(self).active is None ==> final(self).refused(old(self), r),
            old(self).active is Some ==> {
                &&& r is Ok
                &&& final(self).active is Some
                &&& final(self).model() == (BeatriceView {
                    info: BeatriceInfo { pitch_correction_type, ..old(self).model().info },
                    ..old(self).model()
                })
            },
    {
        match &mut self.active {
            Some(model) => {
                model.set_pitch_correction_type(pitch_correction_type);
                Ok(())
            },
            None => Err(BeatriceError::ModelNotLoaded),
        }
    }

    /// Sets the formant shift of the active model and returns the position
    /// of the formant-shift embedding that it selects. `rounded` is the shift
    /// doubled, plus four, rounded to the nearest integer.
    pub fn set_formant_shift(&mut self, formant_shift: Scalar, rounded: i64) -> (r: Result<
        usize,
        BeatriceError,
    >)
        ensures
            old(self).active is None ==> final(self).refused(old(self), r),
            old(self).active is Some ==> {
                &&& r is Ok
                &&& r->Ok_0 == clamped(rounded as int, 0, FORMANT_SHIFT_POSITIONS - 1)
                &&& final(self).active is Some
                &&& final(self).model() == (BeatriceView {
                    info: BeatriceInfo { formant_shift, ..old(self).model().info },
                    formant_index: r->Ok_0 as int,
                    ..old(self).model()
                })
            },
    {
        match &mut self.active {
            Some(model) => Ok(model.set_formant_shift(formant_shift, rounded)),
            None => Err(BeatriceError::ModelNotLoaded),
        }
    }

    /// Sets the lowest source pitch of the active model, where its generation
    /// has one, and returns the pitch bin to hand to the engine.
    pub fn set_min_source_pitch(&mut self, min_source_pitch: Scalar, scaled: i32) -> (r: Result<
        Option<i32>,
        BeatriceError,
    >)
        ensures
            old(self).active is None ==> final(self).refused(old(self), r),
            old(self).active is Some ==> {
                &&& r is Ok
                &&& final(self).active is Some
                &&& old(self).model().generation == Generation::Rc0 ==> {
                    &&& r->Ok_0 == Some(clamped(scaled as int, 1, 447) as i32)
                    &&& final(self).model() == (BeatriceView {
                        info: BeatriceInfo { min_source_pitch, ..old(self).model().info },
                        ..old(self).model()
                    })
                }
                &&& old(self).model().generation != Generation::Rc0 ==> r->Ok_0 is None
                    && final(self).model() == old(self).model()
            },
    {
        match &mut self.active {
            Some(model) => Ok(model.set_min_source_pitch(min_source_pitch, scaled)),
            None => Err(BeatriceError::ModelNotLoaded),
        }
    }

    /// Sets the highest source pitch of the active model, where its
    /// generation has one, and returns the pitch bin to hand to the engine.
    pub fn set_max_source_pitch(&mut self, max_source_pitch: Scalar, scaled: i32) -> (r: Result<
        Option<i32>,
        BeatriceError,
    >)
        ensures
            old(self).active is None ==> final(self).refused(old(self), r),
            old(self).active is Some ==> {
                &&& r is Ok
                &&& final(self).active is Some
                &&& old(self).model().generation == Generation::Rc0 ==> {
                    &&& r->Ok_0 == Some(clamped(scaled as int, 1, 447) as i32)
                    &&& final(self).model() == (BeatriceView {
                        info: BeatriceInfo { max_source_pitch, ..old(self).model().info },
                        ..old(self).model()
                    })
                }
                &&& old(self).model().generation != Generation::Rc0 ==> r->Ok_0 is None
                    && final(self).model() == old(self).model()
            },
    {
        match &mut self.active {
            Some(model) => Ok(model.set_max_source_pitch(max_source_pitch, scaled)),
            None => Err(BeatriceError::ModelNotLoaded),
        }
    }

    /// Sets the neighbour count of the active model, where its generation has
    /// one, and returns the count to hand to the engine.
    pub fn set_vq_num_neighbors(&mut self, vq_num_neighbors: i32) -> (r: Result<
        Option<i32>,
        BeatriceError,
    >)
        ensures
            old(self).active is None ==> final(self).refused(old(self), r),
            old(self).active is Some ==> {
                &&& r is Ok
                &&& final(self).active is Some
                &&& old(self).model().generation == Generation::Rc0 ==> {
                    &&& r->Ok_0 == Some(
                        clamped(vq_num_neighbors as int, 0, MAX_VQ_NUM_NEIGHBORS as int) as i32,
                    )
                    &&& final(self).model() == (BeatriceView {
                        info: BeatriceInfo {
                            vq_num_neighbors: r->Ok_0->0,
                            ..old(self).model().info
                        },
                        ..old(self).model()
                    })
                }
                &&& old(self).model().generation != Generation::Rc0 ==> r->Ok_0 is None
                    && final(self).model() == old(self).model()
            },
    {
        match &mut self.active {
            Some(model) => Ok(model.set_vq_num_neighbors(vq_num_neighbors)),
            None => Err(BeatriceError::ModelNotLoaded),
        }
    }

    /// Begins one conversion step of the active model. Without a model there
    /// is nothing to convert with, and the caller plays silence.
    pub fn begin_frame(&mut self) -> (r: Result<FrameSetup, BeatriceError>)
        ensures
            old(self).active is None ==> final(self).refused(old(self), r),
            old(self).active is Some ==> {
                &&& r is Ok
                &&& final(self).active is Some
                &&& r->Ok_0 == old(self).model().frame_setup(0)
                &&& final(self).model() == (BeatriceView {
                    warmup: old(self).model().warmup_after(1),
                    ..old(self).model()
                })
            },
    {
        match &mut self.active {
            Some(model) => Ok(model.begin_frame()),
            None => Err(BeatriceError::ModelNotLoaded),
        }
    }
    /// Converts a block of a stream at the model's input rate with the active
    /// model, as `Beatrice::infer` does. Without a model nothing is converted and
    /// `convert` is not called.
    pub fn infer<F: Fn(&Vec<Sample>, FrameSetup) -> Vec<Sample>>(
        &mut self,
        input: &[Sample],
        convert: F,
    ) -> (r: Result<Vec<Sample>, BeatriceError>)
        requires
            forall|hop: Vec<Sample>, setup: FrameSetup|
                hop@.len() == BEATRICE_IN_HOP_LENGTH ==> call_requires(convert, (&hop, setup)),
        ensures
            old(self).active is None ==> final(self).refused(old(self), r),
            old(self).active is Some ==> {
                &&& r is Ok
                &&& final(self).active is Some
                &&& exists|hops: Seq<Vec<Sample>>, blocks: Seq<Vec<Sample>>| #[trigger]
                    old(self).model().is_conversion(convert, input@, hops, blocks) && r->Ok_0@
                        == joined(blocks)
                &&& final(self).model() == (BeatriceView {
                    warmup: old(self).model().warmup_after(
                        hop_count(old(self).model().stream(input@).len()),
                    ),
                    held: held_after(old(self).model().stream(input@)),
                    ..old(self).model()
                })
            },
    {
        match &mut self.active {
            Some(model) => Ok(model.infer(input, convert)),
            None => Err(BeatriceError::ModelNotLoaded),
        }
    }
    /// Forgets what the active model remembers of the stream so far, as a
    /// reset of the engine's contexts demands.
    pub fn reset_context(&mut self) -> (r: Result<(), BeatriceError>)
        ensures
            old(self).active is None ==> final(self).refused(old(self), r),
            old(self).active is Some ==> {
                &&& r is Ok
                &&& final(self).active is Some
                &&& final(self).model() == (BeatriceView {
                    warmup: KeyValueWarmup { warmed_count: 0 },
                    held: Seq::empty(),
                    ..old(self).model()
                })
            },
    {
        match &mut self.active {
            Some(model) => {
                model.reset_context();
                Ok(())
            },
            None => Err(BeatriceError::ModelNotLoaded),
        }
    }
}

} // verus!
