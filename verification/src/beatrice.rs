//! A loaded model and the settings of its conversion.
//!
//! `Beatrice` is one model of any of the three generations behind one
//! interface. It owns the embedding tables and the settings, keeps the target
//! speaker inside the tables, and tells the host which rows to hand to the
//! inference engine.

use crate::embedding::EmbeddingTable;
use crate::embedding::KeyValueWarmup;
use crate::errors::BeatriceError;
use crate::frames::hop_at;
use crate::frames::hop_count;
use crate::frames::join_hops;
use crate::frames::joined;
use crate::frames::split_hops;
use crate::generation::Generation;
use crate::generation::BEATRICE_20RC0_N_BLOCKS;
use crate::frames::held_after;
use crate::generation::BEATRICE_IN_HOP_LENGTH;
use crate::generation::BEATRICE_WAVEFORM_GENERATOR_HIDDEN_CHANNELS;
use crate::layout::ResamplerPlan;
use crate::layout::Resamplers;
use crate::params::BeatriceInfo;
use crate::pitch::clamp_vq_num_neighbors;
use crate::pitch::clamped;
use crate::pitch::correction_curve;
use crate::pitch::formant_shift_index;
use crate::pitch::quantize_pitch;
use crate::pitch::spec_correction_curve;
use crate::pitch::PitchCorrectionType;
use crate::pitch::FORMANT_SHIFT_POSITIONS;
use crate::pitch::MAX_VQ_NUM_NEIGHBORS;
use crate::sample::combine_blocks;
use crate::sample::is_combined;
use crate::sample::Sample;
use crate::sample::Scalar;
use crate::tables::ModelTables;
use crate::tables::CODEBOOK_WIDTH;
use crate::tables::KEY_VALUE_WIDTH;
use vstd::prelude::*;
use vstd::string::*;

verus! {

/// Sample rate that a model assumes of both devices until it is told theirs.
pub const DEFAULT_DEVICE_RATE: u32 = 48000;

/// The position of the formant-shift embedding for no shift.
pub const NEUTRAL_FORMANT_INDEX: usize = 4;

/// The rows of the speaker tables that select the target speaker.
pub enum SpeakerEmbeddings {
    /// First two generations: the speaker's embedding, to which the formant
    /// shift embedding is added.
    Earlier { speaker: Vec<Sample> },
    /// Newest generation: the speaker's codebook, additive embedding and
    /// key/value embedding.
    Newest { codebook: Vec<Sample>, additive: Vec<Sample>, key_value: Vec<Sample> },
}

/// What one conversion step has to do before it runs the engine.
#[derive(Debug, Clone, Copy, PartialEq, Eq, Structural)]
pub struct FrameSetup {
    /// The block of the key/value speaker embedding to feed, if one is left.
    pub key_value_block: Option<usize>,
    /// The curve that corrects the frame's pitch, if any.
    pub correction: Option<PitchCorrectionType>,
    /// The settings as they stand at the start of the step.
    pub info: BeatriceInfo,
}

/// A loaded model.
pub struct Beatrice {
    generation: Generation,
    model_path: String,
    info: BeatriceInfo,
    formant_index: usize,
    tables: ModelTables,
    warmup: KeyValueWarmup,
    resamplers: Resamplers,
    held: Vec<Sample>,
}

/// What a loaded model holds.
pub struct BeatriceView {
    pub generation: Generation,
    /// The folder that the model was loaded from.
    pub model_path: Seq<char>,
    pub info: BeatriceInfo,
    /// The position of the formant-shift embedding in use.
    pub formant_index: int,
    pub tables: ModelTables,
    /// The warm-up of the key/value speaker embedding.
    pub warmup: KeyValueWarmup,
    /// The formats of the devices on both sides of the model.
    pub resamplers: Resamplers,
    /// The samples at the model's input rate that came after the last whole
    /// hop and wait for the next block.
    pub held: Seq<Sample>,
}

impl BeatriceView {
    /// What holds of every loaded model: the target speaker is a speaker
    /// of the model or the neutral speaker after them, the formant shift
    /// selects a position of its table, the tables are those of the model's
    /// generation and number of speakers and hold exactly their rows, and
    /// fewer samples than a hop are held.
    pub open spec fn wf(self) -> bool {
        &&& self.info.wf()
        &&& 0 <= self.formant_index < FORMANT_SHIFT_POSITIONS
        &&& self.warmup.warmed_count <= BEATRICE_20RC0_N_BLOCKS
        &&& self.tables.fits(self.generation, self.info.n_speakers as int)
        &&& self.tables.sizes_hold()
        &&& self.held.len() < BEATRICE_IN_HOP_LENGTH
    }

    /// What a model holds when it is made: the first settings of its
    /// generation, target speaker 0, no formant shift, a key/value embedding
    /// of which nothing was fed, stereo devices at 48 kHz, no sample held.
    pub open spec fn spec_new(
        generation: Generation,
        model_path: Seq<char>,
        n_speakers: i32,
        tables: ModelTables,
    ) -> BeatriceView {
        BeatriceView {
            generation,
            model_path,
            info: BeatriceInfo { n_speakers, ..BeatriceInfo::spec_for_generation(generation) },
            formant_index: NEUTRAL_FORMANT_INDEX as int,
            tables,
            warmup: KeyValueWarmup { warmed_count: 0 },
            resamplers: Resamplers {
                in_sample_rate: DEFAULT_DEVICE_RATE,
                out_sample_rate: DEFAULT_DEVICE_RATE,
                input_channel: 2,
                output_channel: 2,
            },
            held: Seq::empty(),
        }
    }

    /// The stream that a conversion of `input` cuts into hops: the samples
    /// held so far, then the input.
    pub open spec fn stream(self, input: Seq<Sample>) -> Seq<Sample> {
        self.held + input
    }

    /// What the step at position `k` of a conversion is set up with, when
    /// the conversion begins with the model in this state.
    pub open spec fn frame_setup(self, k: nat) -> FrameSetup {
        FrameSetup {
            key_value_block: if self.generation == Generation::Rc0 {
                self.warmup.spec_after(k).spec_advance().1
            } else {
                None
            },
            correction: spec_correction_curve(
                self.info.pitch_correction,
                self.info.pitch_correction_type,
            ),
            info: self.info,
        }
    }

    /// The warm-up after `steps` conversion steps. Only the newest
    /// generation warms up.
    pub open spec fn warmup_after(self, steps: nat) -> KeyValueWarmup {
        if self.generation == Generation::Rc0 {
            self.warmup.spec_after(steps)
        } else {
            self.warmup
        }
    }

    /// Whether `hops` are the whole hops of the samples held and `input`,
    /// and `blocks` are what `convert` made of them, hop by hop, in a
    /// conversion that began with the model in this state.
    pub open spec fn is_conversion<F: Fn(&Vec<Sample>, FrameSetup) -> Vec<Sample>>(
        self,
        convert: F,
        input: Seq<Sample>,
        hops: Seq<Vec<Sample>>,
        blocks: Seq<Vec<Sample>>,
    ) -> bool {
        &&& hops.len() == hop_count(self.stream(input).len())
        &&& blocks.len() == hops.len()
        &&& forall|k: int|
            0 <= k < hops.len() ==> {
                &&& (#[trigger] hops[k])@ == hop_at(self.stream(input), k)
                &&& call_ensures(convert, (&hops[k], self.frame_setup(k as nat)), blocks[k])
            }
    }
}

impl View for Beatrice {
    type V = BeatriceView;

    closed spec fn view(&self) -> BeatriceView {
        BeatriceView {
            generation: self.generation,
            model_path: self.model_path@,
            info: self.info,
            formant_index: self.formant_index as int,
            tables: self.tables,
            warmup: self.warmup,
            resamplers: self.resamplers,
            held: self.held@,
        }
    }
}

impl Beatrice {
    #[verifier::type_invariant]
    spec fn inv(&self) -> bool {
        &&& self.info.wf()
        &&& self.formant_index < FORMANT_SHIFT_POSITIONS
        &&& self.warmup.warmed_count <= BEATRICE_20RC0_N_BLOCKS
        &&& self.tables.fits(self.generation, self.info.n_speakers as int)
        &&& self.held@.len() < BEATRICE_IN_HOP_LENGTH
    }

    /// A model of `generation` with `n_speakers` speakers, with the
    /// generation's first settings: target speaker 0, no formant shift, a
    /// key/value embedding of which nothing was fed, stereo devices at
    /// 48 kHz and no sample held. `None` where the tables are not those of
    /// such a model. This makes the model only; a load also warms it (see
    /// `ModelLoader::finish`).
    pub fn new(generation: Generation, model_path: String, n_speakers: i32, tables: ModelTables) -> (r:
        Option<Beatrice>)
        ensures
            r is Some <==> tables.fits(generation, n_speakers as int),
            r is Some ==> r->0@ == BeatriceView::spec_new(generation, model_path@, n_speakers, tables),
            r is Some ==> r->0@.wf(),
    {
        if !tables.check(generation, n_speakers) {
            return None;
        }
        let mut info = BeatriceInfo::for_generation(generation);
        info.n_speakers = n_speakers;
        Some(
            Beatrice {
                generation,
                model_path,
                info,
                formant_index: NEUTRAL_FORMANT_INDEX,
                tables,
                warmup: KeyValueWarmup::new(),
                resamplers: Resamplers::new(DEFAULT_DEVICE_RATE, DEFAULT_DEVICE_RATE, 2, 2),
                held: Vec::new(),
            },
        )
    }

    /// The model's generation.
    pub fn generation(&self) -> (g: Generation)
        ensures
            g == self@.generation,
    {
        self.generation
    }

    /// The version that the model reports.
    pub fn get_model_version(&self) -> (v: String)
        ensures
            v@ == self@.generation.spec_version(),
    {
        String::from_str(self.generation.version())
    }

    /// The folder that the model was loaded from.
    pub fn get_model_path(&self) -> (p: &String)
        ensures
            p@ == self@.model_path,
    {
        &self.model_path
    }

    /// The number of speakers of the model.
    pub fn get_n_speaker(&self) -> (n: Option<i32>)
        ensures
            n == Some(self@.info.n_speakers),
            0 <= self@.info.n_speakers,
    {
        proof {
            use_type_invariant(self);
        }
        Some(self.info.n_speakers)
    }

    /// The settings as they stand. The target speaker is always a speaker of
    /// the model or the neutral speaker after them.
    pub fn info(&self) -> (i: BeatriceInfo)
        ensures
            i == self@.info,
            i.wf(),
            self@.wf(),
    {
        proof {
            use_type_invariant(self);
        }
        self.tables.check(self.generation, self.info.n_speakers);
        self.info
    }

    /// The number of samples that are held for the next block.
    pub fn held_len(&self) -> (n: usize)
        ensures
            n == self@.held.len(),
            n < BEATRICE_IN_HOP_LENGTH,
    {
        proof {
            use_type_invariant(self);
        }
        self.held.len()
    }

    /// The position of the formant-shift embedding in use.
    pub fn formant_index(&self) -> (i: usize)
        ensures
            i == self@.formant_index,
            i < FORMANT_SHIFT_POSITIONS,
    {
        proof {
            use_type_invariant(self);
        }
        self.formant_index
    }

    /// The formats of the devices on both sides of the model.
    pub fn resamplers(&self) -> (r: Resamplers)
        ensures
            r == self@.resamplers,
    {
        self.resamplers
    }

    /// Whether the key/value speaker embedding is installed.
    pub fn is_warm(&self) -> (b: bool)
        ensures
            b == self@.warmup.spec_is_warm(),
    {
        self.warmup.is_warm()
    }

    /// Takes the format of the input device and gives the plan of the
    /// resampler for it.
    pub fn set_input_setting(&mut self, sample_rate: u32, channel: u32) -> (plan: ResamplerPlan)
        ensures
            final(self)@ == (BeatriceView {
                resamplers: Resamplers {
                    in_sample_rate: sample_rate,
                    input_channel: channel,
                    ..old(self)@.resamplers
                },
                ..old(self)@
            }),
            plan == final(self)@.resamplers.spec_input_plan(),
    {
        proof {
            use_type_invariant(&*self);
        }
        let mut resamplers = self.resamplers;
        let plan = resamplers.set_input_setting(sample_rate, channel);
        self.resamplers = resamplers;
        plan
    }

    /// Takes the format of the output device and gives the plan of the
    /// resampler for it.
    pub fn set_output_setting(&mut self, sample_rate: u32, channel: u32) -> (plan: ResamplerPlan)
        ensures
            final(self)@ == (BeatriceView {
                resamplers: Resamplers {
                    out_sample_rate: sample_rate,
                    output_channel: channel,
                    ..old(self)@.resamplers
                },
                ..old(self)@
            }),
            plan == final(self)@.resamplers.spec_output_plan(),
    {
        proof {
            use_type_invariant(&*self);
        }
        let mut resamplers = self.resamplers;
        let plan = resamplers.set_output_setting(sample_rate, channel);
        self.resamplers = resamplers;
        plan
    }

    /// Selects the speaker to convert to. Every speaker of the model and the
    /// neutral speaker after them can be selected; any other is refused and
    /// nothing changes. A new speaker's key/value embedding has to be fed
    /// again from its first block.
    pub fn set_target_speaker(&mut self, speaker: u32) -> (r: Result<(), BeatriceError>)
        ensures
            r is Ok <==> speaker <= old(self)@.info.n_speakers,
            r is Err ==> r->Err_0 == BeatriceError::SpeakerOutOfRange,
            r is Err ==> final(self)@ == old(self)@,
            r is Ok ==> final(self)@ == (BeatriceView {
                info: BeatriceInfo { target_speaker: speaker as i32, ..old(self)@.info },
                warmup: KeyValueWarmup { warmed_count: 0 },
                ..old(self)@
            }),
    {
        proof {
            use_type_invariant(&*self);
        }
        if speaker > i32::MAX as u32 || speaker as i32 > self.info.n_speakers {
            return Err(BeatriceError::SpeakerOutOfRange);
        }
        self.info.target_speaker = speaker as i32;
        self.warmup = KeyValueWarmup::new();
        Ok(())
    }

    /// The rows of the speaker tables for the target speaker, which the host
    /// hands to the inference engine.
    pub fn speaker_embeddings(&self) -> (r: SpeakerEmbeddings)
        ensures
            self@.wf(),
            match self@.tables {
                ModelTables::Earlier { speaker_embeddings, .. } => {
                    &&& r is Earlier
                    &&& r->speaker@ == speaker_embeddings.spec_row(self@.info.target_speaker as int)
                    &&& r->speaker@.len() == BEATRICE_WAVEFORM_GENERATOR_HIDDEN_CHANNELS
                },
                ModelTables::Newest {
                    codebooks,
                    additive_speaker_embeddings,
                    key_value_speaker_embeddings,
                    ..
                } => {
                    &&& r is Newest
                    &&& r->codebook@ == codebooks.spec_row(self@.info.target_speaker as int)
                    &&& r->additive@ == additive_speaker_embeddings.spec_row(
                        self@.info.target_speaker as int,
                    )
                    &&& r->key_value@ == key_value_speaker_embeddings.spec_row(
                        self@.info.target_speaker as int,
                    )
                    &&& r->codebook@.len() == CODEBOOK_WIDTH
                    &&& r->additive@.len() == BEATRICE_WAVEFORM_GENERATOR_HIDDEN_CHANNELS
                    &&& r->key_value@.len() == KEY_VALUE_WIDTH
                },
            },
    {
        proof {
            use_type_invariant(self);
        }
        self.tables.check(self.generation, self.info.n_speakers);
        let target: usize = self.info.target_speaker as usize;
        match &self.tables {
            ModelTables::Earlier { speaker_embeddings, .. } => {
                SpeakerEmbeddings::Earlier { speaker: row_of(speaker_embeddings, target) }
            },
            ModelTables::Newest {
                codebooks,
                additive_speaker_embeddings,
                key_value_speaker_embeddings,
                ..
            } => {
                SpeakerEmbeddings::Newest {
                    codebook: row_of(codebooks, target),
                    additive: row_of(additive_speaker_embeddings, target),
                    key_value: row_of(key_value_speaker_embeddings, target),
                }
            },
        }
    }

    /// The row of the formant-shift table for the formant shift in use.
    pub fn formant_shift_embedding(&self) -> (r: Vec<Sample>)
        ensures
            self@.wf(),
            r@ == self@.tables.spec_formant_shift_embeddings().spec_row(self@.formant_index),
            r@.len() == BEATRICE_WAVEFORM_GENERATOR_HIDDEN_CHANNELS,
    {
        proof {
            use_type_invariant(self);
        }
        self.tables.check(self.generation, self.info.n_speakers);
        match &self.tables {
            ModelTables::Earlier { formant_shift_embeddings, .. } => row_of(
                formant_shift_embeddings,
                self.formant_index,
            ),
            ModelTables::Newest { formant_shift_embeddings, .. } => row_of(
                formant_shift_embeddings,
                self.formant_index,
            ),
        }
    }

    /// The speaker embedding that the waveform generator of the first two
    /// generations takes: the target speaker's row and the row of the
    /// formant shift in use, added sample by sample with `add`. The newest
    /// generation has none; its rows are installed in the engine.
    pub fn speaker_embedding<A: Fn(Sample, Sample) -> Sample>(&self, add: A) -> (r: Option<
        Vec<Sample>,
    >)
        requires
            forall|l: Sample, r: Sample| call_requires(add, (l, r)),
        ensures
            self@.wf(),
            match self@.tables {
                ModelTables::Earlier { speaker_embeddings, formant_shift_embeddings } => {
                    &&& r is Some
                    &&& r->0@.len() == BEATRICE_WAVEFORM_GENERATOR_HIDDEN_CHANNELS
                    &&& is_combined(
                        add,
                        speaker_embeddings.spec_row(self@.info.target_speaker as int),
                        formant_shift_embeddings.spec_row(self@.formant_index),
                        r->0@,
                    )
                    &&& forall|i: int|
                        0 <= i < BEATRICE_WAVEFORM_GENERATOR_HIDDEN_CHANNELS ==> call_ensures(
                            add,
                            (
                                speaker_embeddings.samples()[self@.info.target_speaker
                                    * BEATRICE_WAVEFORM_GENERATOR_HIDDEN_CHANNELS + i],
                                formant_shift_embeddings.samples()[self@.formant_index
                                    * BEATRICE_WAVEFORM_GENERATOR_HIDDEN_CHANNELS + i],
                            ),
                            #[trigger] r->0@[i],
                        )
                },
                ModelTables::Newest { .. } => r is None,
            },
    {
        proof {
            use_type_invariant(self);
        }
        self.tables.check(self.generation, self.info.n_speakers);
        proof {
            lemma_rows_lie_in_tables(self@);
        }
        match &self.tables {
            ModelTables::Earlier { speaker_embeddings, formant_shift_embeddings } => {
                let speaker = row_of(speaker_embeddings, self.info.target_speaker as usize);
                let formant = row_of(formant_shift_embeddings, self.formant_index);
                Some(combine_blocks(speaker.as_slice(), formant.as_slice(), add))
            },
            ModelTables::Newest { .. } => None,
        }
    }

    /// Sets the formant shift. `rounded` is the shift doubled, plus four,
    /// rounded to the nearest integer; it selects one of the nine positions
    /// of the formant-shift table, the first or the last where it lies
    /// outside them.
    pub fn set_formant_shift(&mut self, formant_shift: Scalar, rounded: i64) -> (index: usize)
        ensures
            index == clamped(rounded as int, 0, FORMANT_SHIFT_POSITIONS - 1),
            final(self)@ == (BeatriceView {
                info: BeatriceInfo { formant_shift, ..old(self)@.info },
                formant_index: index as int,
                ..old(self)@
            }),
    {
        proof {
            use_type_invariant(&*self);
        }
        let index = formant_shift_index(rounded);
        self.info.formant_shift = formant_shift;
        self.formant_index = index;
        index
    }

    /// Sets the pitch shift, in semitones.
    pub fn set_pitch_shift(&mut self, pitch_shift: Scalar)
        ensures
            final(self)@ == (BeatriceView {
                info: BeatriceInfo { pitch_shift, ..old(self)@.info },
                ..old(self)@
            }),
    {
        proof {
            use_type_invariant(&*self);
        }
        self.info.pitch_shift = pitch_shift;
    }

    /// Sets the pitch around which intonation is scaled.
    pub fn set_average_source_pitch(&mut self, average_source_pitch: Scalar)
        ensures
            final(self)@ == (BeatriceView {
                info: BeatriceInfo { average_source_pitch, ..old(self)@.info },
                ..old(self)@
            }),
    {
        proof {
            use_type_invariant(&*self);
        }
        self.info.average_source_pitch = average_source_pitch;
    }

    /// Sets the factor by which a pitch's distance from the average is scaled.
    pub fn set_intonation_intensity(&mut self, intonation_intensity: Scalar)
        ensures
            final(self)@ == (BeatriceView {
                info: BeatriceInfo { intonation_intensity, ..old(self)@.info },
                ..old(self)@
            }),
    {
        proof {
            use_type_invariant(&*self);
        }
        self.info.intonation_intensity = intonation_intensity;
    }

    /// Sets the strength of the pitch correction; zero switches it off.
    pub fn set_pitch_correction(&mut self, pitch_correction: Scalar)
        ensures
            final(self)@ == (BeatriceView {
                info: BeatriceInfo { pitch_correction, ..old(self)@.info },
                ..old(self)@
            }),
    {
        proof {
            use_type_invariant(&*self);
        }
        self.info.pitch_correction = pitch_correction;
    }

    /// Sets the code of the pitch correction curve.
    pub fn set_pitch_correction_type(&mut self, pitch_correction_type: i32)
        ensures
            final(self)@ == (BeatriceView {
                info: BeatriceInfo { pitch_correction_type, ..old(self)@.info },
                ..old(self)@
            }),
    {
        proof {
            use_type_invariant(&*self);
        }
        self.info.pitch_correction_type = pitch_correction_type;
    }

    /// Sets the lowest source pitch. `min_source_pitch` is the value forced
    /// into 0 to 128 semitones and `scaled` its distance from 33 semitones in
    /// pitch bins, cut to an integer. Only the newest generation has this
    /// setting: it returns the pitch bin to hand to the engine. The others
    /// change nothing and return `None`.
    pub fn set_min_source_pitch(&mut self, min_source_pitch: Scalar, scaled: i32) -> (bin: Option<
        i32,
    >)
        ensures
            old(self)@.generation == Generation::Rc0 ==> {
                &&& bin == Some(clamped(scaled as int, 1, 447) as i32)
                &&& final(self)@ == (BeatriceView {
                    info: BeatriceInfo { min_source_pitch, ..old(self)@.info },
                    ..old(self)@
                })
            },
            old(self)@.generation != Generation::Rc0 ==> bin is None && final(self)@ == old(self)@,
    {
        proof {
            use_type_invariant(&*self);
        }
        if self.generation.is_newest() {
            self.info.min_source_pitch = min_source_pitch;
            Some(quantize_pitch(scaled, Generation::Rc0))
        } else {
            None
        }
    }

    /// Sets the highest source pitch, as `set_min_source_pitch` sets the lowest.
    pub fn set_max_source_pitch(&mut self, max_source_pitch: Scalar, scaled: i32) -> (bin: Option<
        i32,
    >)
        ensures
            old(self)@.generation == Generation::Rc0 ==> {
                &&& bin == Some(clamped(scaled as int, 1, 447) as i32)
                &&& final(self)@ == (BeatriceView {
                    info: BeatriceInfo { max_source_pitch, ..old(self)@.info },
                    ..old(self)@
                })
            },
            old(self)@.generation != Generation::Rc0 ==> bin is None && final(self)@ == old(self)@,
    {
        proof {
            use_type_invariant(&*self);
        }
        if self.generation.is_newest() {
            self.info.max_source_pitch = max_source_pitch;
            Some(quantize_pitch(scaled, Generation::Rc0))
        } else {
            None
        }
    }

    /// Sets the number of codebook neighbours, forced into 0 to 8. Only the
    /// newest generation has this setting: it returns the count to hand to
    /// the engine. The others change nothing and return `None`.
    pub fn set_vq_num_neighbors(&mut self, vq_num_neighbors: i32) -> (count: Option<i32>)
        ensures
            old(self)@.generation == Generation::Rc0 ==> {
                &&& count == Some(
                    clamped(vq_num_neighbors as int, 0, MAX_VQ_NUM_NEIGHBORS as int) as i32,
                )
                &&& final(self)@ == (BeatriceView {
                    info: BeatriceInfo { vq_num_neighbors: count->0, ..old(self)@.info },
                    ..old(self)@
                })
            },
            old(self)@.generation != Generation::Rc0 ==> count is None && final(self)@ == old(
                self,
            )@,
    {
        proof {
            use_type_invariant(&*self);
        }
        if self.generation.is_newest() {
            let count = clamp_vq_num_neighbors(vq_num_neighbors);
            self.info.vq_num_neighbors = count;
            Some(count)
        } else {
            None
        }
    }

    /// Begins one conversion step: takes a snapshot of the settings, decides
    /// the pitch correction curve, and, in the newest generation, names the
    /// next block of the key/value speaker embedding and counts it as fed.
    pub fn begin_frame(&mut self) -> (setup: FrameSetup)
        ensures
            setup == old(self)@.frame_setup(0),
            final(self)@ == (BeatriceView { warmup: old(self)@.warmup_after(1), ..old(self)@ }),
    {
        proof {
            use_type_invariant(&*self);
            reveal_with_fuel(KeyValueWarmup::spec_after, 2);
        }
        let info = self.info;
        let correction = correction_curve(info.pitch_correction, info.pitch_correction_type);
        let key_value_block = if self.generation.is_newest() {
            let mut warmup = self.warmup;
            let block = warmup.advance();
            self.warmup = warmup;
            block
        } else {
            None
        };
        FrameSetup { key_value_block, correction, info }
    }

    /// Completes the warm-up at once, as a load does: names the blocks of the
    /// key/value speaker embedding that are still to be fed, in order, and
    /// counts them as fed. Only the newest generation has such blocks.
    pub fn warm_up(&mut self) -> (blocks: Vec<usize>)
        ensures
            old(self)@.generation == Generation::Rc0 ==> {
                &&& final(self)@ == (BeatriceView {
                    warmup: KeyValueWarmup { warmed_count: BEATRICE_20RC0_N_BLOCKS },
                    ..old(self)@
                })
                &&& blocks@ == Seq::new(
                    (BEATRICE_20RC0_N_BLOCKS - old(self)@.warmup.warmed_count) as nat,
                    |i: int| (old(self)@.warmup.warmed_count + i) as usize,
                )
            },
            old(self)@.generation != Generation::Rc0 ==> final(self)@ == old(self)@
                && blocks@.len() == 0,
    {
        proof {
            use_type_invariant(&*self);
        }
        let mut blocks: Vec<usize> = Vec::new();
        if !self.generation.is_newest() {
            return blocks;
        }
        let first = self.warmup.warmed_count;
        let mut next = first;
        while next < BEATRICE_20RC0_N_BLOCKS
            invariant
                first <= next <= BEATRICE_20RC0_N_BLOCKS,
                blocks@ == Seq::new((next - first) as nat, |i: int| (first + i) as usize),
            decreases BEATRICE_20RC0_N_BLOCKS - next,
        {
            blocks.push(next);
            next = next + 1;
        }
        self.warmup = KeyValueWarmup { warmed_count: BEATRICE_20RC0_N_BLOCKS };
        blocks
    }

    /// Converts a block of a stream at the model's input rate. The samples
    /// held from the blocks before stand before the block; the whole hops of
    /// the two are converted in order, and the samples after the last whole
    /// hop are held for the next block. Each hop is begun as `begin_frame`
    /// says and handed to `convert`, which runs the inference engine on it;
    /// the blocks that come back are put one after the other.
    pub fn infer<F: Fn(&Vec<Sample>, FrameSetup) -> Vec<Sample>>(
        &mut self,
        input: &[Sample],
        convert: F,
    ) -> (out: Vec<Sample>)
        requires
            forall|hop: Vec<Sample>, setup: FrameSetup|
                hop@.len() == BEATRICE_IN_HOP_LENGTH ==> call_requires(convert, (&hop, setup)),
        ensures
            exists|hops: Seq<Vec<Sample>>, blocks: Seq<Vec<Sample>>| #[trigger]
                old(self)@.is_conversion(convert, input@, hops, blocks) && out@ == joined(blocks),
            final(self)@ == (BeatriceView {
                warmup: old(self)@.warmup_after(hop_count(old(self)@.stream(input@).len())),
                held: held_after(old(self)@.stream(input@)),
                ..old(self)@
            }),
            final(self)@.held.len() < BEATRICE_IN_HOP_LENGTH,
    {
        proof {
            use_type_invariant(&*self);
        }
        let ghost start = self@;
        let (hops, rest) = split_hops(self.held.as_slice(), input);
        self.held = rest;
        let count = hops.len();
        let mut blocks: Vec<Vec<Sample>> = Vec::new();
        let mut k: usize = 0;
        while k < count
            invariant
                k <= count,
                count == hops@.len(),
                forall|h: int|
                    0 <= h < count ==> (#[trigger] hops@[h])@ == hop_at(start.stream(input@), h),
                forall|h: int| 0 <= h < count ==> (#[trigger] hops@[h])@.len() == BEATRICE_IN_HOP_LENGTH,
                forall|hop: Vec<Sample>, setup: FrameSetup|
                    hop@.len() == BEATRICE_IN_HOP_LENGTH ==> call_requires(convert, (&hop, setup)),
                blocks@.len() == k,
                forall|h: int|
                    0 <= h < k ==> call_ensures(
                        convert,
                        (&hops@[h], start.frame_setup(h as nat)),
                        #[trigger] blocks@[h],
                    ),
                self@ == (BeatriceView {
                    warmup: start.warmup_after(k as nat),
                    held: held_after(start.stream(input@)),
                    ..start
                }),
            decreases count - k,
        {
            let setup = self.begin_frame();
            let block = convert(&hops[k], setup);
            blocks.push(block);
            k = k + 1;
        }
        let out = join_hops(&blocks);
        proof {
            assert(start.is_conversion(convert, input@, hops@, blocks@));
        }
        out
    }

    /// Forgets what the model remembers of the stream so far, as a reset of
    /// the engine's contexts demands: the samples held are dropped, and the
    /// key/value speaker embedding has to be fed again from its first block.
    /// The settings and the tables stay.
    pub fn reset_context(&mut self)
        ensures
            final(self)@ == (BeatriceView {
                warmup: KeyValueWarmup { warmed_count: 0 },
                held: Seq::empty(),
                ..old(self)@
            }),
    {
        proof {
            use_type_invariant(&*self);
        }
        self.warmup = KeyValueWarmup::new();
        self.held = Vec::new();
    }

    /// Forces a frame's transformed and rounded pitch into the bins of the
    /// model's generation.
    pub fn finish_pitch(&self, rounded: i32) -> (q: i32)
        ensures
            q == clamped(rounded as int, 1, self@.generation.spec_pitch_bins() - 1),
    {
        quantize_pitch(rounded, self.generation)
    }
}

/// A row that a table is known to have.
fn row_of(table: &EmbeddingTable, row: usize) -> (r: Vec<Sample>)
    requires
        row < table.spec_rows(),
    ensures
        r@ == table.spec_row(row as int),
        r@.len() == table.spec_width(),
{
    match table.row(row) {
        Some(r) => r,
        None => Vec::new(),
    }
}

/// The rows that are handed to the engine lie inside their tables: the row
/// of the target speaker in every speaker table, and the row of the formant
/// shift in its table.
pub proof fn lemma_rows_lie_in_tables(model: BeatriceView)
    requires
        model.wf(),
    ensures
        match model.tables {
            ModelTables::Earlier { speaker_embeddings, formant_shift_embeddings } => {
                &&& row_lies_in(
                    speaker_embeddings,
                    model.info.target_speaker as int,
                    BEATRICE_WAVEFORM_GENERATOR_HIDDEN_CHANNELS as int,
                )
                &&& row_lies_in(
                    formant_shift_embeddings,
                    model.formant_index,
                    BEATRICE_WAVEFORM_GENERATOR_HIDDEN_CHANNELS as int,
                )
            },
            ModelTables::Newest {
                codebooks,
                additive_speaker_embeddings,
                formant_shift_embeddings,
                key_value_speaker_embeddings,
            } => {
                &&& row_lies_in(codebooks, model.info.target_speaker as int, CODEBOOK_WIDTH as int)
                &&& row_lies_in(
                    additive_speaker_embeddings,
                    model.info.target_speaker as int,
                    BEATRICE_WAVEFORM_GENERATOR_HIDDEN_CHANNELS as int,
                )
                &&& row_lies_in(
                    formant_shift_embeddings,
                    model.formant_index,
                    BEATRICE_WAVEFORM_GENERATOR_HIDDEN_CHANNELS as int,
                )
                &&& row_lies_in(
                    key_value_speaker_embeddings,
                    model.info.target_speaker as int,
                    KEY_VALUE_WIDTH as int,
                )
            },
        },
{
    let t = model.info.target_speaker as int;
    let n = model.info.n_speakers as int;
    let f = model.formant_index;
    lemma_row_in_rows(t, n + 1, BEATRICE_WAVEFORM_GENERATOR_HIDDEN_CHANNELS as int);
    lemma_row_in_rows(t, n + 1, CODEBOOK_WIDTH as int);
    lemma_row_in_rows(t, n + 1, KEY_VALUE_WIDTH as int);
}

/// A row of a table of `rows` rows lies before the table's end.
proof fn lemma_row_in_rows(row: int, rows: int, width: int)
    requires
        0 <= row < rows,
        0 <= width,
    ensures
        0 <= row * width,
        row * width + width <= rows * width,
{
    assert(0 <= row * width && row * width + width <= rows * width) by (nonlinear_arith)
        requires
            0 <= row < rows,
            0 <= width,
    ;
}

/// Whether the row at `row` of a table is `width` samples long and lies
/// inside the table, beginning at `row * width`.
pub open spec fn row_lies_in(table: EmbeddingTable, row: int, width: int) -> bool {
    &&& table.spec_width() == width
    &&& 0 <= row * width
    &&& row * width + width <= table.samples().len()
    &&& table.spec_row(row).len() == width
    &&& forall|i: int| 0 <= i < width ==> #[trigger] table.spec_row(row)[i] == table.samples()[row
        * width + i]
}

/// A change of speaker resets the warm-up, and from then on it takes exactly
/// four conversion steps of the newest generation until the key/value
/// embedding is installed: the steps feed the blocks 0 to 3 in order, the
/// model is cold before the fourth step and warm after it.
pub proof fn lemma_speaker_switch_warms_in_four_steps(switched: BeatriceView, steps: nat)
    requires
        switched.generation == Generation::Rc0,
        switched.warmup.warmed_count == 0,
    ensures
        switched.warmup_after(steps).spec_is_warm() <==> steps >= BEATRICE_20RC0_N_BLOCKS,
        switched.frame_setup(steps).key_value_block == if steps < BEATRICE_20RC0_N_BLOCKS {
            Some(steps as usize)
        } else {
            None
        },
{
    crate::embedding::lemma_warmup_takes_all_blocks(steps);
}

} // verus!
