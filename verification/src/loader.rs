//! How a model is loaded, step by step.
//!
//! Loading reads one parameter file after the other through the inference
//! engine. The host makes the calls; the loader says which file is next,
//! takes the engine's result code, and gives up at the first code that is not
//! success. A model comes out only when every step succeeded.

use crate::beatrice::Beatrice;
use crate::beatrice::BeatriceView;
use crate::embedding::KeyValueWarmup;
use crate::errors::BeatriceError;
use crate::errors::Beatrice_ErrorCode;
use crate::generation::Generation;
use crate::generation::BEATRICE_20RC0_N_BLOCKS;
use crate::generation::BEATRICE_WAVEFORM_GENERATOR_HIDDEN_CHANNELS;
use crate::pitch::FORMANT_SHIFT_POSITIONS;
use crate::sample::Sample;
use crate::tables::ModelTables;
use crate::tables::CODEBOOK_WIDTH;
use crate::tables::KEY_VALUE_WIDTH;
use crate::text::decimal;
use crate::text::decimal_string;
use crate::text::lists;
use crate::text::position_of;
use vstd::prelude::*;
use vstd::string::*;

verus! {

/// Number of steps of a load, in every generation.
pub const LOAD_STEPS: usize = 6;

/// One call of a reader of the inference engine.
#[derive(Debug, Clone, Copy, PartialEq, Eq, Structural)]
pub enum LoadStep {
    PhoneExtractor,
    PitchEstimator,
    WaveformGenerator,
    /// Newest generation only.
    EmbeddingSetter,
    /// Reads the number of speakers.
    SpeakerCount,
    /// Fills the speaker tables; in the newest generation the formant-shift
    /// table too.
    SpeakerEmbeddings,
    /// First two generations only.
    FormantShiftEmbeddings,
}

impl LoadStep {
    /// The file that the step reads.
    pub open spec fn spec_file_name(self) -> Seq<char> {
        match self {
            LoadStep::PhoneExtractor => "phone_extractor.bin"@,
            LoadStep::PitchEstimator => "pitch_estimator.bin"@,
            LoadStep::WaveformGenerator => "waveform_generator.bin"@,
            LoadStep::EmbeddingSetter => "embedding_setter.bin"@,
            LoadStep::SpeakerCount => "speaker_embeddings.bin"@,
            LoadStep::SpeakerEmbeddings => "speaker_embeddings.bin"@,
            LoadStep::FormantShiftEmbeddings => "formant_shift_embeddings.bin"@,
        }
    }

    /// The file that the step reads.
    pub fn file_name(self) -> (name: &'static str)
        ensures
            name@ == self.spec_file_name(),
    {
        match self {
            LoadStep::PhoneExtractor => "phone_extractor.bin",
            LoadStep::PitchEstimator => "pitch_estimator.bin",
            LoadStep::WaveformGenerator => "waveform_generator.bin",
            LoadStep::EmbeddingSetter => "embedding_setter.bin",
            LoadStep::SpeakerCount => "speaker_embeddings.bin",
            LoadStep::SpeakerEmbeddings => "speaker_embeddings.bin",
            LoadStep::FormantShiftEmbeddings => "formant_shift_embeddings.bin",
        }
    }
}

/// The steps of a load, in their order.
pub open spec fn load_plan(generation: Generation) -> Seq<LoadStep> {
    if generation == Generation::Rc0 {
        seq![
            LoadStep::PhoneExtractor,
            LoadStep::PitchEstimator,
            LoadStep::WaveformGenerator,
            LoadStep::EmbeddingSetter,
            LoadStep::SpeakerCount,
            LoadStep::SpeakerEmbeddings,
        ]
    } else {
        seq![
            LoadStep::PhoneExtractor,
            LoadStep::PitchEstimator,
            LoadStep::WaveformGenerator,
            LoadStep::SpeakerCount,
            LoadStep::SpeakerEmbeddings,
            LoadStep::FormantShiftEmbeddings,
        ]
    }
}

/// Whether a folder with these files holds every file that a load of the
/// generation reads.
pub open spec fn folder_is_complete(generation: Generation, files: Seq<String>) -> bool {
    forall|k: int|
        0 <= k < load_plan(generation).len() ==> lists(
            files,
            (#[trigger] load_plan(generation)[k]).spec_file_name(),
        )
}

/// The step at a position of the plan.
fn plan_step(generation: Generation, position: usize) -> (step: LoadStep)
    requires
        position < LOAD_STEPS,
    ensures
        step == load_plan(generation)[position as int],
{
    if generation.is_newest() {
        if position == 0 {
            LoadStep::PhoneExtractor
        } else if position == 1 {
            LoadStep::PitchEstimator
        } else if position == 2 {
            LoadStep::WaveformGenerator
        } else if position == 3 {
            LoadStep::EmbeddingSetter
        } else if position == 4 {
            LoadStep::SpeakerCount
        } else {
            LoadStep::SpeakerEmbeddings
        }
    } else {
        if position == 0 {
            LoadStep::PhoneExtractor
        } else if position == 1 {
            LoadStep::PitchEstimator
        } else if position == 2 {
            LoadStep::WaveformGenerator
        } else if position == 3 {
            LoadStep::SpeakerCount
        } else if position == 4 {
            LoadStep::SpeakerEmbeddings
        } else {
            LoadStep::FormantShiftEmbeddings
        }
    }
}

/// Whether the folder holds every file that a load of the generation reads.
pub fn check_folder(generation: Generation, files: &Vec<String>) -> (b: bool)
    ensures
        b == folder_is_complete(generation, files@),
{
    let mut position: usize = 0;
    while position < LOAD_STEPS
        invariant
            position <= LOAD_STEPS,
            load_plan(generation).len() == LOAD_STEPS,
            forall|k: int|
                0 <= k < position ==> lists(
                    files@,
                    (#[trigger] load_plan(generation)[k]).spec_file_name(),
                ),
        decreases LOAD_STEPS - position,
    {
        let step = plan_step(generation, position);
        if position_of(files, step.file_name()).is_none() {
            return false;
        }
        position = position + 1;
    }
    true
}

/// Whether the first NUL byte of `bytes` is at `i`.
pub open spec fn is_first_nul(bytes: Seq<u8>, i: int) -> bool {
    &&& 0 <= i < bytes.len()
    &&& bytes[i] == 0
    &&& forall|j: int| 0 <= j < i ==> bytes[j] != 0
}

/// The text with which a path is refused for its NUL byte at `position`.
pub open spec fn nul_message(position: nat) -> Seq<char> {
    "nul byte found in provided data at position: "@ + decimal(position)
}

/// Examines the path of a parameter file before it is handed to the
/// inference engine, which takes a path to end at its first NUL byte. A path
/// with a NUL byte in it is refused, and the error names the place of the
/// first.
pub fn check_engine_path(path: &str) -> (r: Result<(), BeatriceError>)
    ensures
        r is Ok <==> forall|i: int| 0 <= i < path.spec_bytes().len() ==> path.spec_bytes()[i] != 0,
        r is Err ==> r->Err_0 is NulError && exists|i: int| #[trigger]
            is_first_nul(path.spec_bytes(), i) && r->Err_0->NulError_0@ == nul_message(i as nat),
{
    let bytes = path.as_bytes();
    let mut i: usize = 0;
    while i < bytes.len()
        invariant
            i <= bytes.len(),
            bytes@ == path.spec_bytes(),
            forall|j: int| 0 <= j < i ==> bytes@[j] != 0,
        decreases bytes.len() - i,
    {
        if bytes[i] == 0 {
            let message = String::from_str("nul byte found in provided data at position: ").concat(
                decimal_string(i).as_str(),
            );
            assert(is_first_nul(path.spec_bytes(), i as int));
            return Err(BeatriceError::NulError(message));
        }
        i = i + 1;
    }
    Ok(())
}

/// A load under way.
pub struct ModelLoader {
    pub generation: Generation,
    /// Number of steps that succeeded.
    pub position: usize,
    /// Why the load was given up, if it was.
    pub failure: Option<BeatriceError>,
    /// Number of speakers, once it was read.
    pub n_speakers: i32,
}

impl ModelLoader {
    /// The step that the host has to make next: none once the load was given
    /// up or is complete.
    pub open spec fn spec_next_step(self) -> Option<LoadStep> {
        if self.failure is None && self.position < LOAD_STEPS {
            Some(load_plan(self.generation)[self.position as int])
        } else {
            None
        }
    }

    /// Whether every step succeeded.
    pub open spec fn spec_is_complete(self) -> bool {
        self.failure is None && self.position >= LOAD_STEPS
    }

    /// The loader after the engine answered the pending step with `code`,
    /// and, for the step that reads it, the number of speakers.
    pub open spec fn spec_record(self, code: Beatrice_ErrorCode, n_speakers: i32) -> ModelLoader {
        if self.spec_next_step() is None {
            self
        } else if code != Beatrice_ErrorCode::Beatrice_kSuccess {
            ModelLoader { failure: BeatriceError::spec_from_code(code), ..self }
        } else if self.spec_next_step() == Some(LoadStep::SpeakerCount) {
            if n_speakers < 0 {
                ModelLoader { failure: Some(BeatriceError::InvalidFileSize), ..self }
            } else {
                ModelLoader { position: (self.position + 1) as usize, n_speakers, ..self }
            }
        } else {
            ModelLoader { position: (self.position + 1) as usize, ..self }
        }
    }

    /// What the load comes to, given whether the tables that were read are
    /// those of the model: the error that ends it, or none.
    pub open spec fn spec_outcome(self, tables_fit: bool) -> Option<BeatriceError> {
        if self.failure is Some {
            self.failure
        } else if self.position < LOAD_STEPS {
            Some(BeatriceError::ModelNotLoaded)
        } else if !tables_fit {
            Some(BeatriceError::InvalidFileSize)
        } else {
            None
        }
    }

    /// Begins a load. The manifest's version selects the generation, and the
    /// folder must hold every file that the generation reads: a load from an
    /// unknown version or from a folder that lacks a file is refused before
    /// any file is read.
    pub fn begin(version: &str, files: &Vec<String>) -> (r: Result<ModelLoader, BeatriceError>)
        ensures
            r is Ok <==> {
                &&& Generation::spec_from_version(version@) is Some
                &&& folder_is_complete(Generation::spec_from_version(version@)->0, files@)
            },
            r is Err ==> r->Err_0 == BeatriceError::FileOpenError,
            r is Ok ==> r->Ok_0 == spec_fresh_loader(version@),
    {
        let generation = match Generation::from_version(version) {
            Ok(g) => g,
            Err(_) => return Err(BeatriceError::FileOpenError),
        };
        if !check_folder(generation, files) {
            return Err(BeatriceError::FileOpenError);
        }
        Ok(ModelLoader { generation, position: 0, failure: None, n_speakers: 0 })
    }

    /// The step that the host has to make next: none once the load was given
    /// up or is complete.
    pub fn next_step(&self) -> (step: Option<LoadStep>)
        ensures
            step == self.spec_next_step(),
    {
        if self.failure.is_none() && self.position < LOAD_STEPS {
            Some(plan_step(self.generation, self.position))
        } else {
            None
        }
    }

    /// Whether every step succeeded.
    pub fn is_complete(&self) -> (b: bool)
        ensures
            b == self.spec_is_complete(),
    {
        self.failure.is_none() && self.position >= LOAD_STEPS
    }

    /// Takes the engine's answer to the pending step. Success moves on to the
    /// next step; any other code ends the load with the error it stands for.
    /// `n_speakers` is read at the step that reads the number of speakers
    /// and ignored at the others; a negative number there ends the load as a
    /// file of invalid size.
    pub fn record(&mut self, code: Beatrice_ErrorCode, n_speakers: i32)
        ensures
            *final(self) == old(self).spec_record(code, n_speakers),
    {
        let step = match self.next_step() {
            Some(step) => step,
            None => return ,
        };
        match BeatriceError::try_from(code) {
            Ok(error) => {
                self.failure = Some(error);
            },
            Err(_) => {
                match step {
                    LoadStep::SpeakerCount => {
                        if n_speakers < 0 {
                            self.failure = Some(BeatriceError::InvalidFileSize);
                        } else {
                            self.position = self.position + 1;
                            self.n_speakers = n_speakers;
                        }
                    },
                    _ => {
                        self.position = self.position + 1;
                    },
                }
            },
        }
    }

    /// Ends the load. The model comes out when every step succeeded and the
    /// tables are those of a model of the generation with the number of
    /// speakers that was read. Otherwise the error is the one that ended the
    /// load; `ModelNotLoaded` where steps are still to be made; and
    /// `InvalidFileSize` for tables of another shape. A model of the newest
    /// generation comes out warm: every block of the key/value embedding of
    /// its first speaker counts as fed, and the blocks are named for the
    /// host to feed them.
    pub fn finish(self, model_path: String, tables: ModelTables) -> (r: Result<
        LoadedModel,
        BeatriceError,
    >)
        ensures
            r is Ok <==> self.spec_outcome(
                tables.fits(self.generation, self.n_speakers as int),
            ) is None,
            r is Err ==> Some(r->Err_0) == self.spec_outcome(
                tables.fits(self.generation, self.n_speakers as int),
            ),
            r is Ok ==> is_loaded(r->Ok_0, self.generation, model_path@, self.n_speakers, tables),
    {
        match self.failure {
            Some(error) => return Err(error),
            None => {},
        }
        if self.position < LOAD_STEPS {
            return Err(BeatriceError::ModelNotLoaded);
        }
        match Beatrice::new(self.generation, model_path, self.n_speakers, tables) {
            Some(model) => {
                let mut model = model;
                let key_value_blocks = model.warm_up();
                assert(key_value_blocks@ =~= spec_loaded_blocks(self.generation));
                Ok(LoadedModel { model, key_value_blocks })
            },
            None => Err(BeatriceError::InvalidFileSize),
        }
    }
}

/// What a load gives: the model, and what the host still owes the engine.
pub struct LoadedModel {
    /// The model, with speaker 0 as its target.
    pub model: Beatrice,
    /// The blocks of the key/value speaker embedding that the host has to
    /// feed to the engine, in this order, once it has installed the rows of
    /// the target speaker. They already count as fed.
    pub key_value_blocks: Vec<usize>,
}

/// The blocks that the host has to feed after a load: all of them, in order,
/// in the newest generation; none in the others.
pub open spec fn spec_loaded_blocks(generation: Generation) -> Seq<usize> {
    if generation == Generation::Rc0 {
        Seq::new(BEATRICE_20RC0_N_BLOCKS as nat, |i: int| i as usize)
    } else {
        Seq::empty()
    }
}

/// What a model holds after its load: what a new model holds, with the
/// key/value embedding installed where the generation has one.
pub open spec fn spec_loaded(
    generation: Generation,
    model_path: Seq<char>,
    n_speakers: i32,
    tables: ModelTables,
) -> BeatriceView {
    BeatriceView {
        warmup: KeyValueWarmup {
            warmed_count: if generation == Generation::Rc0 {
                BEATRICE_20RC0_N_BLOCKS
            } else {
                0
            },
        },
        ..BeatriceView::spec_new(generation, model_path, n_speakers, tables)
    }
}

/// Whether `loaded` is what the load of a model with these tables gives.
pub open spec fn is_loaded(
    loaded: LoadedModel,
    generation: Generation,
    model_path: Seq<char>,
    n_speakers: i32,
    tables: ModelTables,
) -> bool {
    &&& loaded.model@ == spec_loaded(generation, model_path, n_speakers, tables)
    &&& loaded.model@.wf()
    &&& loaded.key_value_blocks@ == spec_loaded_blocks(generation)
}

/// The lengths of the tables that a step of a load has to fill, in samples.
/// A table that the step does not fill has length zero.
#[derive(Debug, Clone, Copy, PartialEq, Eq, Structural)]
pub struct TableLengths {
    pub codebooks: u64,
    /// The speaker embeddings; in the newest generation the additive
    /// speaker embeddings.
    pub speaker_embeddings: u64,
    pub formant_shift_embeddings: u64,
    pub key_value_speaker_embeddings: u64,
}

/// The number of rows of a speaker table: one for each speaker and one for
/// the neutral speaker.
pub open spec fn speaker_rows(n_speakers: i32) -> int {
    if n_speakers < 0 {
        0
    } else {
        n_speakers + 1
    }
}

/// The lengths of the tables that a step has to fill, once `n_speakers`
/// speakers are known.
pub open spec fn spec_table_lengths(generation: Generation, step: LoadStep, n_speakers: i32) -> TableLengths {
    let rows = speaker_rows(n_speakers);
    match step {
        LoadStep::SpeakerEmbeddings => if generation == Generation::Rc0 {
            TableLengths {
                codebooks: (rows * CODEBOOK_WIDTH) as u64,
                speaker_embeddings: (rows * BEATRICE_WAVEFORM_GENERATOR_HIDDEN_CHANNELS) as u64,
                formant_shift_embeddings: (FORMANT_SHIFT_POSITIONS
                    * BEATRICE_WAVEFORM_GENERATOR_HIDDEN_CHANNELS) as u64,
                key_value_speaker_embeddings: (rows * KEY_VALUE_WIDTH) as u64,
            }
        } else {
            TableLengths {
                codebooks: 0,
                speaker_embeddings: (rows * BEATRICE_WAVEFORM_GENERATOR_HIDDEN_CHANNELS) as u64,
                formant_shift_embeddings: 0,
                key_value_speaker_embeddings: 0,
            }
        },
        LoadStep::FormantShiftEmbeddings => TableLengths {
            codebooks: 0,
            speaker_embeddings: 0,
            formant_shift_embeddings: (FORMANT_SHIFT_POSITIONS
                * BEATRICE_WAVEFORM_GENERATOR_HIDDEN_CHANNELS) as u64,
            key_value_speaker_embeddings: 0,
        },
        _ => TableLengths {
            codebooks: 0,
            speaker_embeddings: 0,
            formant_shift_embeddings: 0,
            key_value_speaker_embeddings: 0,
        },
    }
}

/// The lengths of the tables that a step has to fill, once `n_speakers`
/// speakers are known.
pub fn table_lengths(generation: Generation, step: LoadStep, n_speakers: i32) -> (lengths: TableLengths)
    ensures
        lengths == spec_table_lengths(generation, step, n_speakers),
{
    let rows: u64 = if n_speakers < 0 {
        0
    } else {
        n_speakers as u64 + 1
    };
    let width: u64 = 256;
    let formant: u64 = 9 * 256;
    match step {
        LoadStep::SpeakerEmbeddings => {
            if generation.is_newest() {
                TableLengths {
                    codebooks: rows * 65536,
                    speaker_embeddings: rows * width,
                    formant_shift_embeddings: formant,
                    key_value_speaker_embeddings: rows * 49152,
                }
            } else {
                TableLengths {
                    codebooks: 0,
                    speaker_embeddings: rows * width,
                    formant_shift_embeddings: 0,
                    key_value_speaker_embeddings: 0,
                }
            }
        },
        LoadStep::FormantShiftEmbeddings => TableLengths {
            codebooks: 0,
            speaker_embeddings: 0,
            formant_shift_embeddings: formant,
            key_value_speaker_embeddings: 0,
        },
        _ => TableLengths {
            codebooks: 0,
            speaker_embeddings: 0,
            formant_shift_embeddings: 0,
            key_value_speaker_embeddings: 0,
        },
    }
}

/// What the inference engine answered to one step of a load.
pub struct StepAnswer {
    pub code: Beatrice_ErrorCode,
    /// The number of speakers; it is read at the step that reads it.
    pub n_speakers: i32,
    /// The tables that the step filled: codebooks, additive speaker
    /// embeddings, formant-shift embeddings and key/value speaker embeddings,
    /// in this order, at the last step of the newest generation; one table
    /// at each of the last two steps of the others.
    pub tables: Vec<Vec<Sample>>,
}

/// The position of the step that fills the speaker tables.
pub open spec fn speaker_tables_step(generation: Generation) -> int {
    if generation == Generation::Rc0 {
        5
    } else {
        4
    }
}

/// Whether the tables that a complete load read have the lengths of the
/// tables of a model with `n_speakers` speakers: four tables at the last step
/// of the newest generation, one table at each of the last two steps of the
/// others. No model has a negative number of speakers.
pub open spec fn can_assemble(generation: Generation, n_speakers: int, answers: Seq<StepAnswer>) -> bool {
    if n_speakers < 0 {
        false
    } else if generation == Generation::Rc0 {
        let read = answers[5].tables@;
        &&& read.len() == 4
        &&& read[0]@.len() == ModelTables::speaker_table_len(n_speakers, CODEBOOK_WIDTH as int)
        &&& read[1]@.len() == ModelTables::speaker_table_len(
            n_speakers,
            BEATRICE_WAVEFORM_GENERATOR_HIDDEN_CHANNELS as int,
        )
        &&& read[2]@.len() == FORMANT_SHIFT_POSITIONS * BEATRICE_WAVEFORM_GENERATOR_HIDDEN_CHANNELS
        &&& read[3]@.len() == ModelTables::speaker_table_len(n_speakers, KEY_VALUE_WIDTH as int)
    } else {
        &&& answers[4].tables@.len() == 1
        &&& answers[4].tables@[0]@.len() == ModelTables::speaker_table_len(
            n_speakers,
            BEATRICE_WAVEFORM_GENERATOR_HIDDEN_CHANNELS as int,
        )
        &&& answers[5].tables@.len() == 1
        &&& answers[5].tables@[0]@.len() == FORMANT_SHIFT_POSITIONS
            * BEATRICE_WAVEFORM_GENERATOR_HIDDEN_CHANNELS
    }
}

/// Whether `tables` hold what a complete load read, table for table.
pub open spec fn is_assembled(tables: ModelTables, generation: Generation, answers: Seq<StepAnswer>) -> bool {
    match tables {
        ModelTables::Newest {
            codebooks,
            additive_speaker_embeddings,
            formant_shift_embeddings,
            key_value_speaker_embeddings,
        } => {
            &&& generation == Generation::Rc0
            &&& codebooks.samples() == answers[5].tables@[0]@
            &&& additive_speaker_embeddings.samples() == answers[5].tables@[1]@
            &&& formant_shift_embeddings.samples() == answers[5].tables@[2]@
            &&& key_value_speaker_embeddings.samples() == answers[5].tables@[3]@
        },
        ModelTables::Earlier { speaker_embeddings, formant_shift_embeddings } => {
            &&& generation != Generation::Rc0
            &&& speaker_embeddings.samples() == answers[4].tables@[0]@
            &&& formant_shift_embeddings.samples() == answers[5].tables@[0]@
        },
    }
}

/// Whether `r` is what a load comes to that took `answers` and stands at
/// `end`: the error that ended it; or, after six answers of success, the
/// model over the tables that were read, or `InvalidFileSize` where they are
/// not the tables of such a model.
pub open spec fn is_load_result(
    r: Result<LoadedModel, BeatriceError>,
    model_path: Seq<char>,
    end: ModelLoader,
    answers: Seq<StepAnswer>,
) -> bool {
    if end.failure is Some {
        r is Err && r->Err_0 == end.failure->0
    } else {
        &&& r is Ok <==> can_assemble(end.generation, end.n_speakers as int, answers)
        &&& r is Err ==> r->Err_0 == BeatriceError::InvalidFileSize
        &&& r is Ok ==> {
            &&& is_assembled(r->Ok_0.model@.tables, end.generation, answers)
            &&& is_loaded(
                r->Ok_0,
                end.generation,
                model_path,
                end.n_speakers,
                r->Ok_0.model@.tables,
            )
        }
    }
}

impl ModelLoader {
    /// The loader after it took `answers`, one after the other.
    pub open spec fn spec_record_all(self, answers: Seq<StepAnswer>) -> ModelLoader
        decreases answers.len(),
    {
        if answers.len() == 0 {
            self
        } else {
            self.spec_record_all(answers.drop_last()).spec_record(
                answers.last().code,
                answers.last().n_speakers,
            )
        }
    }

    /// Whether `answers` are what `read` answered to a load that ran from
    /// this loader to its end: every answer is the answer to the step that
    /// was pending when it was asked for, and after the last answer no step
    /// is pending.
    pub open spec fn is_run<F: Fn(LoadStep, TableLengths) -> StepAnswer>(
        self,
        read: F,
        answers: Seq<StepAnswer>,
    ) -> bool {
        &&& self.spec_record_all(answers).spec_next_step() is None
        &&& forall|k: int| 0 <= k < answers.len() ==> #[trigger] self.is_asked(read, answers, k)
    }

    /// Whether the answer at `k` is what `read` answered to the step that
    /// was pending after the answers before it, asked with the lengths of
    /// the tables that the step has to fill for the number of speakers known
    /// by then.
    pub open spec fn is_asked<F: Fn(LoadStep, TableLengths) -> StepAnswer>(
        self,
        read: F,
        answers: Seq<StepAnswer>,
        k: int,
    ) -> bool {
        let before = self.spec_record_all(answers.take(k));
        &&& before.spec_next_step() is Some
        &&& call_ensures(
            read,
            (
                before.spec_next_step()->0,
                spec_table_lengths(self.generation, before.spec_next_step()->0, before.n_speakers),
            ),
            answers[k],
        )
    }

    /// One more answer is recorded after the others.
    proof fn lemma_record_all_push(self, answers: Seq<StepAnswer>, answer: StepAnswer)
        ensures
            self.spec_record_all(answers.push(answer)) == self.spec_record_all(answers).spec_record(
                answer.code,
                answer.n_speakers,
            ),
    {
        assert(answers.push(answer).drop_last() =~= answers);
    }

    /// One more answer leaves the answers before it as they were asked.
    proof fn lemma_asked_before<F: Fn(LoadStep, TableLengths) -> StepAnswer>(
        self,
        read: F,
        answers: Seq<StepAnswer>,
        answer: StepAnswer,
        k: int,
    )
        requires
            0 <= k < answers.len(),
            self.is_asked(read, answers, k),
        ensures
            self.is_asked(read, answers.push(answer), k),
    {
        assert(answers.push(answer).take(k) =~= answers.take(k));
    }
}

impl Beatrice {
    /// Loads a model. `version` is the version in the folder's manifest and
    /// `files` are the names of the folder's files. A version that no
    /// generation answers to and a folder that lacks a file of the generation
    /// are refused before anything is read. Then `read` is called for one
    /// step after the other, each time with the lengths of the tables that
    /// the step has to fill, until a step fails or all succeeded. The model
    /// is made of the tables that the steps read. Its target is speaker 0,
    /// and in the newest generation it is warm: the load names the blocks of
    /// the key/value embedding for the host to feed them.
    pub fn load_model<F: Fn(LoadStep, TableLengths) -> StepAnswer>(
        version: &str,
        files: &Vec<String>,
        model_path: String,
        read: F,
    ) -> (r: Result<LoadedModel, BeatriceError>)
        requires
            forall|step: LoadStep, lengths: TableLengths| call_requires(read, (step, lengths)),
        ensures
            !(Generation::spec_from_version(version@) is Some && folder_is_complete(
                Generation::spec_from_version(version@)->0,
                files@,
            )) ==> r is Err && r->Err_0 == BeatriceError::FileOpenError,
            Generation::spec_from_version(version@) is Some && folder_is_complete(
                Generation::spec_from_version(version@)->0,
                files@,
            ) ==> exists|answers: Seq<StepAnswer>| #[trigger]
                spec_fresh_loader(version@).is_run(read, answers) && is_load_result(
                    r,
                    model_path@,
                    spec_fresh_loader(version@).spec_record_all(answers),
                    answers,
                ),
            r is Ok ==> {
                &&& Some(r->Ok_0.model@.generation) == Generation::spec_from_version(version@)
                &&& r->Ok_0.model@.model_path == model_path@
                &&& r->Ok_0.model@.info.target_speaker == 0
                &&& r->Ok_0.model@.wf()
                &&& r->Ok_0.model@.generation == Generation::Rc0 ==> {
                    &&& r->Ok_0.model@.warmup.warmed_count == BEATRICE_20RC0_N_BLOCKS
                    &&& r->Ok_0.key_value_blocks@ == seq![0usize, 1usize, 2usize, 3usize]
                }
                &&& r->Ok_0.model@.generation != Generation::Rc0 ==> r->Ok_0.key_value_blocks@.len()
                    == 0
            },
    {
        let mut loader = match ModelLoader::begin(version, files) {
            Ok(loader) => loader,
            Err(_) => return Err(BeatriceError::FileOpenError),
        };
        let ghost fresh = loader;
        let ghost mut answers: Seq<StepAnswer> = Seq::empty();
        let generation = loader.generation;
        let mut speaker_tables: Vec<Vec<Sample>> = Vec::new();
        let mut formant_tables: Vec<Vec<Sample>> = Vec::new();
        loop
            invariant
                forall|step: LoadStep, lengths: TableLengths| call_requires(read, (step, lengths)),
                fresh == spec_fresh_loader(version@),
                fresh.generation == generation,
                loader == fresh.spec_record_all(answers),
                loader.generation == generation,
                loader.position <= LOAD_STEPS,
                loader.failure is None ==> loader.position == answers.len(),
                forall|k: int| 0 <= k < answers.len() ==> #[trigger] fresh.is_asked(read, answers, k),
                loader.failure is None && loader.position > speaker_tables_step(generation)
                    ==> speaker_tables == answers[speaker_tables_step(generation)].tables,
                loader.failure is None && generation != Generation::Rc0 && loader.position > 5
                    ==> formant_tables == answers[5].tables,
            ensures
                loader.spec_next_step() is None,
            decreases
                    LOAD_STEPS - loader.position + if loader.failure is None {
                        1int
                    } else {
                        0int
                    },
        {
            let step = match loader.next_step() {
                Some(step) => step,
                None => break,
            };
            let answer = read(step, table_lengths(generation, step, loader.n_speakers));
            let ghost before = answers;
            proof {
                answers = before.push(answer);
                fresh.lemma_record_all_push(before, answer);
                assert(answers.take(before.len() as int) =~= before);
                assert forall|k: int| 0 <= k < answers.len() implies #[trigger] fresh.is_asked(
                    read,
                    answers,
                    k,
                ) by {
                    if k < before.len() {
                        fresh.lemma_asked_before(read, before, answer, k);
                    }
                }
            }
            let StepAnswer { code, n_speakers, tables } = answer;
            loader.record(code, n_speakers);
            if loader.failure.is_none() {
                match step {
                    LoadStep::SpeakerEmbeddings => {
                        speaker_tables = tables;
                    },
                    LoadStep::FormantShiftEmbeddings => {
                        formant_tables = tables;
                    },
                    _ => {},
                }
            }
        }
        proof {
            assert(fresh.is_run(read, answers));
        }
        match loader.failure {
            Some(error) => return Err(error),
            None => {},
        }
        let n_speakers = loader.n_speakers;
        let tables = if generation.is_newest() {
            if speaker_tables.len() != 4 {
                return Err(BeatriceError::InvalidFileSize);
            }
            let key_value = speaker_tables.pop().unwrap();
            let formant = speaker_tables.pop().unwrap();
            let additive = speaker_tables.pop().unwrap();
            let codebooks = speaker_tables.pop().unwrap();
            ModelTables::newest(n_speakers, codebooks, additive, formant, key_value)
        } else {
            if speaker_tables.len() != 1 || formant_tables.len() != 1 {
                return Err(BeatriceError::InvalidFileSize);
            }
            let speaker = speaker_tables.pop().unwrap();
            let formant = formant_tables.pop().unwrap();
            ModelTables::earlier(n_speakers, speaker, formant)
        };
        match tables {
            None => Err(BeatriceError::InvalidFileSize),
            Some(tables) => loader.finish(model_path, tables),
        }
    }
}

/// The loader with which the load of a folder with this version begins.
pub open spec fn spec_fresh_loader(version: Seq<char>) -> ModelLoader {
    ModelLoader {
        generation: Generation::spec_from_version(version)->0,
        position: 0,
        failure: None,
        n_speakers: 0,
    }
}

/// A load that was given up makes no further step and takes no further
/// answer.
pub proof fn lemma_failed_load_stops(loader: ModelLoader, code: Beatrice_ErrorCode, n: i32)
    requires
        loader.failure is Some,
    ensures
        loader.spec_next_step() is None,
        loader.spec_record(code, n) == loader,
        forall|fit: bool| #[trigger] loader.spec_outcome(fit) == loader.failure,
{
}

/// A file that cannot be opened at any step ends the load with
/// `FileOpenError`, whatever the steps before it read and whatever is handed
/// in afterwards.
pub proof fn lemma_unreadable_file_fails_load(loader: ModelLoader, n: i32)
    requires
        loader.spec_next_step() is Some,
    ensures
        forall|fit: bool| #[trigger]
            loader.spec_record(Beatrice_ErrorCode::Beatrice_kFileOpenError, n).spec_outcome(fit)
                == Some(BeatriceError::FileOpenError),
{
}

/// A folder that lacks the file of any one step is no complete folder, so a
/// load from it is refused.
pub proof fn lemma_missing_file_refused(generation: Generation, files: Seq<String>, k: int)
    requires
        0 <= k < LOAD_STEPS,
        !lists(files, load_plan(generation)[k].spec_file_name()),
    ensures
        !folder_is_complete(generation, files),
{
}

/// Only six answers of success complete a load.
pub proof fn lemma_success_advances(loader: ModelLoader, n: i32)
    requires
        loader.spec_next_step() is Some,
        loader.spec_next_step() != Some(LoadStep::SpeakerCount) || n >= 0,
    ensures
        loader.spec_record(Beatrice_ErrorCode::Beatrice_kSuccess, n).position == loader.position
            + 1,
        loader.spec_record(Beatrice_ErrorCode::Beatrice_kSuccess, n).failure is None,
        loader.spec_record(Beatrice_ErrorCode::Beatrice_kSuccess, n).spec_is_complete()
            <==> loader.position == LOAD_STEPS - 1,
{
}

} // verus!
