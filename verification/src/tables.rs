//! The embedding tables of a loaded model.

use crate::embedding::EmbeddingTable;
use crate::generation::Generation;
use crate::generation::BEATRICE_WAVEFORM_GENERATOR_HIDDEN_CHANNELS;
use crate::pitch::FORMANT_SHIFT_POSITIONS;
use crate::sample::silence;
use crate::sample::Sample;
use vstd::prelude::*;

verus! {

/// Samples of one speaker's codebook in the newest generation: the codebook
/// size times the phone channels.
pub const CODEBOOK_WIDTH: usize = 65536;

/// Samples of one speaker's key/value embedding in the newest generation: the
/// key/value length times the embedding channels.
pub const KEY_VALUE_WIDTH: usize = 49152;

/// The tables that select a speaker and a formant shift. The speaker tables
/// have one row per speaker and one more for the neutral speaker.
pub enum ModelTables {
    /// Tables of the first two generations.
    Earlier { speaker_embeddings: EmbeddingTable, formant_shift_embeddings: EmbeddingTable },
    /// Tables of the newest generation.
    Newest {
        codebooks: EmbeddingTable,
        additive_speaker_embeddings: EmbeddingTable,
        formant_shift_embeddings: EmbeddingTable,
        key_value_speaker_embeddings: EmbeddingTable,
    },
}

/// Whether a table has the given dimensions.
pub open spec fn has_shape(table: EmbeddingTable, rows: int, width: int) -> bool {
    table.spec_rows() == rows && table.spec_width() == width
}

/// Whether a table holds exactly its rows.
pub open spec fn holds_its_rows(table: EmbeddingTable) -> bool {
    table.samples().len() == table.spec_rows() * table.spec_width()
}

impl ModelTables {
    /// Whether the tables are those of a model of `generation` with
    /// `n_speakers` speakers.
    pub open spec fn fits(self, generation: Generation, n_speakers: int) -> bool {
        0 <= n_speakers && match self {
            ModelTables::Earlier { speaker_embeddings, formant_shift_embeddings } => {
                &&& generation != Generation::Rc0
                &&& has_shape(
                    speaker_embeddings,
                    n_speakers + 1,
                    BEATRICE_WAVEFORM_GENERATOR_HIDDEN_CHANNELS as int,
                )
                &&& has_shape(
                    formant_shift_embeddings,
                    FORMANT_SHIFT_POSITIONS as int,
                    BEATRICE_WAVEFORM_GENERATOR_HIDDEN_CHANNELS as int,
                )
            },
            ModelTables::Newest {
                codebooks,
                additive_speaker_embeddings,
                formant_shift_embeddings,
                key_value_speaker_embeddings,
            } => {
                &&& generation == Generation::Rc0
                &&& has_shape(codebooks, n_speakers + 1, CODEBOOK_WIDTH as int)
                &&& has_shape(
                    additive_speaker_embeddings,
                    n_speakers + 1,
                    BEATRICE_WAVEFORM_GENERATOR_HIDDEN_CHANNELS as int,
                )
                &&& has_shape(
                    formant_shift_embeddings,
                    FORMANT_SHIFT_POSITIONS as int,
                    BEATRICE_WAVEFORM_GENERATOR_HIDDEN_CHANNELS as int,
                )
                &&& has_shape(key_value_speaker_embeddings, n_speakers + 1, KEY_VALUE_WIDTH as int)
            },
        }
    }

    /// Whether every table holds exactly its rows: as many samples as its
    /// number of rows times their width.
    pub open spec fn sizes_hold(self) -> bool {
        match self {
            ModelTables::Earlier { speaker_embeddings, formant_shift_embeddings } => {
                &&& holds_its_rows(speaker_embeddings)
                &&& holds_its_rows(formant_shift_embeddings)
            },
            ModelTables::Newest {
                codebooks,
                additive_speaker_embeddings,
                formant_shift_embeddings,
                key_value_speaker_embeddings,
            } => {
                &&& holds_its_rows(codebooks)
                &&& holds_its_rows(additive_speaker_embeddings)
                &&& holds_its_rows(formant_shift_embeddings)
                &&& holds_its_rows(key_value_speaker_embeddings)
            },
        }
    }

    /// The formant-shift table.
    pub open spec fn spec_formant_shift_embeddings(self) -> EmbeddingTable {
        match self {
            ModelTables::Earlier { formant_shift_embeddings, .. } => formant_shift_embeddings,
            ModelTables::Newest { formant_shift_embeddings, .. } => formant_shift_embeddings,
        }
    }

    /// The lengths that the sample arrays of a model with `n_speakers`
    /// speakers must have, for a table whose rows are `width` samples long.
    pub open spec fn speaker_table_len(n_speakers: int, width: int) -> int {
        (n_speakers + 1) * width
    }

    /// The tables of one of the first two generations over the samples that
    /// were read from its files. `None` where an array has not the length of
    /// its table.
    pub fn earlier(
        n_speakers: i32,
        speaker_embeddings: Vec<Sample>,
        formant_shift_embeddings: Vec<Sample>,
    ) -> (r: Option<ModelTables>)
        ensures
            r is Some <==> {
                &&& 0 <= n_speakers
                &&& speaker_embeddings@.len() == Self::speaker_table_len(
                    n_speakers as int,
                    BEATRICE_WAVEFORM_GENERATOR_HIDDEN_CHANNELS as int,
                )
                &&& formant_shift_embeddings@.len() == FORMANT_SHIFT_POSITIONS
                    * BEATRICE_WAVEFORM_GENERATOR_HIDDEN_CHANNELS
            },
            r is Some ==> {
                &&& r->0 is Earlier
                &&& forall|g: Generation| g != Generation::Rc0 ==> r->0.fits(g, n_speakers as int)
                &&& r->0->Earlier_speaker_embeddings.samples() == speaker_embeddings@
                &&& r->0->Earlier_formant_shift_embeddings.samples() == formant_shift_embeddings@
            },
    {
        if n_speakers < 0 {
            return None;
        }
        let rows: usize = (n_speakers as usize) + 1;
        let speaker = match EmbeddingTable::from_samples(
            rows,
            BEATRICE_WAVEFORM_GENERATOR_HIDDEN_CHANNELS,
            speaker_embeddings,
        ) {
            Some(t) => t,
            None => return None,
        };
        let formant = match EmbeddingTable::from_samples(
            FORMANT_SHIFT_POSITIONS,
            BEATRICE_WAVEFORM_GENERATOR_HIDDEN_CHANNELS,
            formant_shift_embeddings,
        ) {
            Some(t) => t,
            None => return None,
        };
        Some(
            ModelTables::Earlier {
                speaker_embeddings: speaker,
                formant_shift_embeddings: formant,
            },
        )
    }

    /// The tables of the newest generation over the samples that were read
    /// from its file. `None` where an array has not the length of its table.
    pub fn newest(
        n_speakers: i32,
        codebooks: Vec<Sample>,
        additive_speaker_embeddings: Vec<Sample>,
        formant_shift_embeddings: Vec<Sample>,
        key_value_speaker_embeddings: Vec<Sample>,
    ) -> (r: Option<ModelTables>)
        ensures
            r is Some <==> {
                &&& 0 <= n_speakers
                &&& codebooks@.len() == Self::speaker_table_len(
                    n_speakers as int,
                    CODEBOOK_WIDTH as int,
                )
                &&& additive_speaker_embeddings@.len() == Self::speaker_table_len(
                    n_speakers as int,
                    BEATRICE_WAVEFORM_GENERATOR_HIDDEN_CHANNELS as int,
                )
                &&& formant_shift_embeddings@.len() == FORMANT_SHIFT_POSITIONS
                    * BEATRICE_WAVEFORM_GENERATOR_HIDDEN_CHANNELS
                &&& key_value_speaker_embeddings@.len() == Self::speaker_table_len(
                    n_speakers as int,
                    KEY_VALUE_WIDTH as int,
                )
            },
            r is Some ==> {
                &&& r->0 is Newest
                &&& r->0.fits(Generation::Rc0, n_speakers as int)
                &&& r->0->codebooks.samples() == codebooks@
                &&& r->0->additive_speaker_embeddings.samples() == additive_speaker_embeddings@
                &&& r->0->Newest_formant_shift_embeddings.samples() == formant_shift_embeddings@
                &&& r->0->key_value_speaker_embeddings.samples() == key_value_speaker_embeddings@
            },
    {
        if n_speakers < 0 {
            return None;
        }
        let rows: usize = (n_speakers as usize) + 1;
        let codebooks = match EmbeddingTable::from_samples(rows, CODEBOOK_WIDTH, codebooks) {
            Some(t) => t,
            None => return None,
        };
        let additive = match EmbeddingTable::from_samples(
            rows,
            BEATRICE_WAVEFORM_GENERATOR_HIDDEN_CHANNELS,
            additive_speaker_embeddings,
        ) {
            Some(t) => t,
            None => return None,
        };
        let formant = match EmbeddingTable::from_samples(
            FORMANT_SHIFT_POSITIONS,
            BEATRICE_WAVEFORM_GENERATOR_HIDDEN_CHANNELS,
            formant_shift_embeddings,
        ) {
            Some(t) => t,
            None => return None,
        };
        let key_value = match EmbeddingTable::from_samples(
            rows,
            KEY_VALUE_WIDTH,
            key_value_speaker_embeddings,
        ) {
            Some(t) => t,
            None => return None,
        };
        Some(
            ModelTables::Newest {
                codebooks,
                additive_speaker_embeddings: additive,
                formant_shift_embeddings: formant,
                key_value_speaker_embeddings: key_value,
            },
        )
    }

    /// Tables of zeros for a model of `generation` with `n_speakers`
    /// speakers, as they stand before the files are read. `None` for a
    /// negative number of speakers and where a table would not fit in memory.
    pub fn zeroed(generation: Generation, n_speakers: i32) -> (r: Option<ModelTables>)
        ensures
            r is Some ==> r->0.fits(generation, n_speakers as int),
            r is Some ==> r->0.all_silent(),
            r is Some <==> 0 <= n_speakers && Self::speaker_table_len(
                n_speakers as int,
                if generation == Generation::Rc0 {
                    CODEBOOK_WIDTH as int
                } else {
                    BEATRICE_WAVEFORM_GENERATOR_HIDDEN_CHANNELS as int
                },
            ) <= usize::MAX,
    {
        if n_speakers < 0 {
            return None;
        }
        let rows: usize = (n_speakers as usize) + 1;
        let formant = match EmbeddingTable::zeroed(
            FORMANT_SHIFT_POSITIONS,
            BEATRICE_WAVEFORM_GENERATOR_HIDDEN_CHANNELS,
        ) {
            Some(t) => t,
            None => return None,
        };
        let additive = match EmbeddingTable::zeroed(
            rows,
            BEATRICE_WAVEFORM_GENERATOR_HIDDEN_CHANNELS,
        ) {
            Some(t) => t,
            None => {
                assert(rows * 256 <= rows * 65536) by (nonlinear_arith);
                return None;
            },
        };
        if generation.is_newest() {
            let codebooks = match EmbeddingTable::zeroed(rows, CODEBOOK_WIDTH) {
                Some(t) => t,
                None => return None,
            };
            assert(rows * 49152 <= rows * 65536) by (nonlinear_arith);
            let key_value = match EmbeddingTable::zeroed(rows, KEY_VALUE_WIDTH) {
                Some(t) => t,
                None => return None,
            };
            Some(
                ModelTables::Newest {
                    codebooks,
                    additive_speaker_embeddings: additive,
                    formant_shift_embeddings: formant,
                    key_value_speaker_embeddings: key_value,
                },
            )
        } else {
            Some(
                ModelTables::Earlier {
                    speaker_embeddings: additive,
                    formant_shift_embeddings: formant,
                },
            )
        }
    }

    /// Whether every sample of every table is silence.
    pub open spec fn all_silent(self) -> bool {
        match self {
            ModelTables::Earlier { speaker_embeddings, formant_shift_embeddings } => {
                &&& speaker_embeddings.samples() == silence(speaker_embeddings.samples().len())
                &&& formant_shift_embeddings.samples() == silence(
                    formant_shift_embeddings.samples().len(),
                )
            },
            ModelTables::Newest {
                codebooks,
                additive_speaker_embeddings,
                formant_shift_embeddings,
                key_value_speaker_embeddings,
            } => {
                &&& codebooks.samples() == silence(codebooks.samples().len())
                &&& additive_speaker_embeddings.samples() == silence(
                    additive_speaker_embeddings.samples().len(),
                )
                &&& formant_shift_embeddings.samples() == silence(
                    formant_shift_embeddings.samples().len(),
                )
                &&& key_value_speaker_embeddings.samples() == silence(
                    key_value_speaker_embeddings.samples().len(),
                )
            },
        }
    }

    /// Whether the tables are those of a model of `generation` with
    /// `n_speakers` speakers.
    pub fn check(&self, generation: Generation, n_speakers: i32) -> (b: bool)
        ensures
            b == self.fits(generation, n_speakers as int),
            self.sizes_hold(),
    {
        match self {
            ModelTables::Earlier { speaker_embeddings, formant_shift_embeddings } => {
                let _ = speaker_embeddings.as_slice();
                let _ = formant_shift_embeddings.as_slice();
            },
            ModelTables::Newest {
                codebooks,
                additive_speaker_embeddings,
                formant_shift_embeddings,
                key_value_speaker_embeddings,
            } => {
                let _ = codebooks.as_slice();
                let _ = additive_speaker_embeddings.as_slice();
                let _ = formant_shift_embeddings.as_slice();
                let _ = key_value_speaker_embeddings.as_slice();
            },
        }
        if n_speakers < 0 {
            return false;
        }
        let rows: u64 = (n_speakers as u64) + 1;
        match self {
            ModelTables::Earlier { speaker_embeddings, formant_shift_embeddings } => {
                !generation.is_newest() && speaker_embeddings.rows() as u64 == rows
                    && speaker_embeddings.width() == BEATRICE_WAVEFORM_GENERATOR_HIDDEN_CHANNELS
                    && formant_shift_embeddings.rows() == FORMANT_SHIFT_POSITIONS
                    && formant_shift_embeddings.width()
                    == BEATRICE_WAVEFORM_GENERATOR_HIDDEN_CHANNELS
            },
            ModelTables::Newest {
                codebooks,
                additive_speaker_embeddings,
                formant_shift_embeddings,
                key_value_speaker_embeddings,
            } => {
                generation.is_newest() && codebooks.rows() as u64 == rows && codebooks.width()
                    == CODEBOOK_WIDTH && additive_speaker_embeddings.rows() as u64 == rows
                    && additive_speaker_embeddings.width()
                    == BEATRICE_WAVEFORM_GENERATOR_HIDDEN_CHANNELS
                    && formant_shift_embeddings.rows() == FORMANT_SHIFT_POSITIONS
                    && formant_shift_embeddings.width()
                    == BEATRICE_WAVEFORM_GENERATOR_HIDDEN_CHANNELS
                    && key_value_speaker_embeddings.rows() as u64 == rows
                    && key_value_speaker_embeddings.width() == KEY_VALUE_WIDTH
            },
        }
    }
}

} // verus!
