use beatrice_lib::errors::BeatriceError;
use beatrice_lib::errors::Beatrice_ErrorCode;
use beatrice_lib::generation::Generation;
use beatrice_lib::loader::check_folder;
use beatrice_lib::loader::LoadStep;
use beatrice_lib::loader::ModelLoader;
use beatrice_lib::loader::table_lengths;
use beatrice_lib::loader::StepAnswer;
use beatrice_lib::loader::TableLengths;
use beatrice_lib::beatrice::Beatrice;
use std::cell::RefCell;
use beatrice_lib::slot::ModelSlot;
use beatrice_lib::tables::ModelTables;

const OK: Beatrice_ErrorCode = Beatrice_ErrorCode::Beatrice_kSuccess;

fn files(list: &[&str]) -> Vec<String> {
    list.iter().map(|s| s.to_string()).collect()
}

fn newest_files() -> Vec<String> {
    files(&[
        "beatrice.toml",
        "phone_extractor.bin",
        "pitch_estimator.bin",
        "waveform_generator.bin",
        "embedding_setter.bin",
        "speaker_embeddings.bin",
    ])
}

fn earlier_files() -> Vec<String> {
    files(&[
        "phone_extractor.bin",
        "pitch_estimator.bin",
        "waveform_generator.bin",
        "speaker_embeddings.bin",
        "formant_shift_embeddings.bin",
        "model.toml",
    ])
}

fn newest_tables(n: i32) -> ModelTables {
    let rows = (n + 1) as usize;
    ModelTables::newest(
        n,
        vec![0; rows * 65536],
        vec![0; rows * 256],
        vec![0; 9 * 256],
        vec![0; rows * 49152],
    )
    .unwrap()
}

fn run_all(loader: &mut ModelLoader, n: i32) -> Vec<LoadStep> {
    let mut steps = Vec::new();
    while let Some(step) = loader.next_step() {
        steps.push(step);
        loader.record(OK, n);
    }
    steps
}

#[test]
fn newest_generation_reads_its_files_in_order() {
    let mut loader = ModelLoader::begin("2.0.0-rc.0", &newest_files()).unwrap();
    let steps = run_all(&mut loader, 7);
    assert_eq!(
        steps,
        vec![
            LoadStep::PhoneExtractor,
            LoadStep::PitchEstimator,
            LoadStep::WaveformGenerator,
            LoadStep::EmbeddingSetter,
            LoadStep::SpeakerCount,
            LoadStep::SpeakerEmbeddings,
        ]
    );
    assert!(loader.is_complete());
    assert_eq!(loader.n_speakers, 7);
    let loaded = loader.finish("m".to_string(), newest_tables(7)).unwrap();
    assert_eq!(loaded.key_value_blocks, vec![0, 1, 2, 3]);
    let model = loaded.model;
    assert_eq!(model.get_n_speaker(), Some(7));
    assert_eq!(model.generation(), Generation::Rc0);
    assert_eq!(model.info().target_speaker, 0);
    assert!(model.is_warm());
}

#[test]
fn earlier_generations_read_their_files_in_order() {
    for version in ["2.0.0-beta.1", "2.0.0-alpha.2"] {
        let mut loader = ModelLoader::begin(version, &earlier_files()).unwrap();
        let steps = run_all(&mut loader, 2);
        assert_eq!(
            steps,
            vec![
                LoadStep::PhoneExtractor,
                LoadStep::PitchEstimator,
                LoadStep::WaveformGenerator,
                LoadStep::SpeakerCount,
                LoadStep::SpeakerEmbeddings,
                LoadStep::FormantShiftEmbeddings,
            ]
        );
        let tables = ModelTables::earlier(2, vec![0; 3 * 256], vec![0; 9 * 256]).unwrap();
        let loaded = loader.finish("m".to_string(), tables).unwrap();
        assert!(loaded.key_value_blocks.is_empty());
        assert!(!loaded.model.is_warm());
    }
}

#[test]
fn step_file_names() {
    assert_eq!(LoadStep::PhoneExtractor.file_name(), "phone_extractor.bin");
    assert_eq!(LoadStep::PitchEstimator.file_name(), "pitch_estimator.bin");
    assert_eq!(LoadStep::WaveformGenerator.file_name(), "waveform_generator.bin");
    assert_eq!(LoadStep::EmbeddingSetter.file_name(), "embedding_setter.bin");
    assert_eq!(LoadStep::SpeakerCount.file_name(), "speaker_embeddings.bin");
    assert_eq!(LoadStep::SpeakerEmbeddings.file_name(), "speaker_embeddings.bin");
    assert_eq!(LoadStep::FormantShiftEmbeddings.file_name(), "formant_shift_embeddings.bin");
}

#[test]
fn unknown_version_cannot_be_loaded() {
    assert!(matches!(
        ModelLoader::begin("3.0.0", &newest_files()),
        Err(BeatriceError::FileOpenError)
    ));
}

#[test]
fn folder_missing_any_one_file_is_refused() {
    for version in ["2.0.0-rc.0", "2.0.0-beta.1"] {
        let full = if version == "2.0.0-rc.0" { newest_files() } else { earlier_files() };
        assert!(ModelLoader::begin(version, &full).is_ok());
        for missing in 0..full.len() {
            if full[missing].ends_with(".toml") {
                continue;
            }
            let mut partial = full.clone();
            partial.remove(missing);
            assert!(matches!(
                ModelLoader::begin(version, &partial),
                Err(BeatriceError::FileOpenError)
            ));
        }
    }
}

#[test]
fn folder_of_one_generation_does_not_serve_another() {
    assert!(!check_folder(Generation::Rc0, &earlier_files()));
    assert!(!check_folder(Generation::Beta1, &newest_files()));
    assert!(check_folder(Generation::Alpha, &earlier_files()));
    assert!(check_folder(Generation::Rc0, &newest_files()));
}

#[test]
fn first_failing_step_ends_the_load_with_its_error() {
    let codes = [
        (Beatrice_ErrorCode::Beatrice_kFileOpenError, "FileOpenError"),
        (Beatrice_ErrorCode::Beatrice_kFileTooSmall, "FileTooSmall"),
        (Beatrice_ErrorCode::Beatrice_kFileTooLarge, "FileTooLarge"),
        (Beatrice_ErrorCode::Beatrice_kInvalidFileSize, "InvalidFileSize"),
    ];
    for failing_step in 0..6 {
        for (code, name) in codes {
            let mut loader = ModelLoader::begin("2.0.0-rc.0", &newest_files()).unwrap();
            for _ in 0..failing_step {
                loader.record(OK, 1);
            }
            loader.record(code, 1);
            assert_eq!(loader.next_step(), None);
            assert!(!loader.is_complete());
            // answers after the failure are not taken
            loader.record(OK, 1);
            loader.record(Beatrice_ErrorCode::Beatrice_kFileTooLarge, 1);
            assert_eq!(loader.position, failing_step);
            let error = loader.finish("m".to_string(), newest_tables(1)).err().unwrap();
            assert_eq!(error.to_string(), name);
        }
    }
}

#[test]
fn negative_speaker_count_is_an_invalid_file() {
    let mut loader = ModelLoader::begin("2.0.0-rc.0", &newest_files()).unwrap();
    for _ in 0..4 {
        loader.record(OK, -5);
    }
    assert_eq!(loader.next_step(), Some(LoadStep::SpeakerCount));
    loader.record(OK, -1);
    assert_eq!(loader.next_step(), None);
    assert!(matches!(
        loader.finish("m".to_string(), newest_tables(0)),
        Err(BeatriceError::InvalidFileSize)
    ));
}

#[test]
fn speaker_count_is_read_only_at_its_step() {
    let mut loader = ModelLoader::begin("2.0.0-rc.0", &newest_files()).unwrap();
    loader.record(OK, 99);
    assert_eq!(loader.n_speakers, 0);
    loader.record(OK, 99);
    loader.record(OK, 99);
    loader.record(OK, 99);
    loader.record(OK, 3);
    assert_eq!(loader.n_speakers, 3);
    loader.record(OK, 99);
    assert_eq!(loader.n_speakers, 3);
    assert!(loader.is_complete());
}

#[test]
fn unfinished_load_gives_no_model() {
    let mut loader = ModelLoader::begin("2.0.0-rc.0", &newest_files()).unwrap();
    loader.record(OK, 0);
    assert!(matches!(
        loader.finish("m".to_string(), newest_tables(0)),
        Err(BeatriceError::ModelNotLoaded)
    ));
}

#[test]
fn tables_of_another_shape_give_no_model() {
    let mut loader = ModelLoader::begin("2.0.0-rc.0", &newest_files()).unwrap();
    run_all(&mut loader, 2);
    assert!(matches!(
        loader.finish("m".to_string(), newest_tables(1)),
        Err(BeatriceError::InvalidFileSize)
    ));
}

#[test]
fn failed_load_leaves_active_model_unchanged() {
    let mut slot = ModelSlot::new();
    let mut loader = ModelLoader::begin("2.0.0-rc.0", &newest_files()).unwrap();
    run_all(&mut loader, 4);
    assert!(slot.install(loader.finish("first".to_string(), newest_tables(4)).map(|l| l.model)).is_ok());
    slot.set_target_speaker(3).unwrap();
    slot.set_pitch_shift(2.0f64.to_bits()).unwrap();

    let mut failing = ModelLoader::begin("2.0.0-rc.0", &newest_files()).unwrap();
    failing.record(OK, 0);
    failing.record(Beatrice_ErrorCode::Beatrice_kFileOpenError, 0);
    let r = slot.install(failing.finish("second".to_string(), newest_tables(0)).map(|l| l.model));
    assert!(matches!(r, Err(BeatriceError::FileOpenError)));
    let model = slot.active.as_ref().unwrap();
    assert_eq!(model.get_model_path(), "first");
    assert_eq!(model.get_n_speaker(), Some(4));
    assert_eq!(model.info().target_speaker, 3);
    assert_eq!(f64::from_bits(model.info().pitch_shift), 2.0);

    let refused: Result<ModelLoader, BeatriceError> = ModelLoader::begin("2.0.0-rc.0", &Vec::new());
    assert!(refused.is_err());
    assert_eq!(slot.get_n_speaker(), Some(4));
}

#[test]
fn successful_load_replaces_active_model() {
    let mut slot = ModelSlot::new();
    let mut a = ModelLoader::begin("2.0.0-rc.0", &newest_files()).unwrap();
    run_all(&mut a, 4);
    slot.install(a.finish("a".to_string(), newest_tables(4)).map(|l| l.model)).unwrap();
    let mut b = ModelLoader::begin("2.0.0-beta.1", &earlier_files()).unwrap();
    run_all(&mut b, 1);
    let tables = ModelTables::earlier(1, vec![0; 2 * 256], vec![0; 9 * 256]).unwrap();
    slot.install(b.finish("b".to_string(), tables).map(|l| l.model)).unwrap();
    assert_eq!(slot.get_n_speaker(), Some(1));
    assert_eq!(slot.get_version(), Some("2.0.0-beta.1".to_string()));
}

fn filled(len: u64, with: u32) -> Vec<u32> {
    vec![with; len as usize]
}

fn answer(step: LoadStep, lengths: TableLengths, n_speakers: i32, newest: bool) -> StepAnswer {
    let tables = match step {
        LoadStep::SpeakerEmbeddings if newest => vec![
            filled(lengths.codebooks, 1),
            filled(lengths.speaker_embeddings, 2),
            filled(lengths.formant_shift_embeddings, 3),
            filled(lengths.key_value_speaker_embeddings, 4),
        ],
        LoadStep::SpeakerEmbeddings => vec![filled(lengths.speaker_embeddings, 5)],
        LoadStep::FormantShiftEmbeddings => vec![filled(lengths.formant_shift_embeddings, 6)],
        _ => Vec::new(),
    };
    StepAnswer { code: OK, n_speakers, tables }
}

const NO_TABLES: TableLengths = TableLengths {
    codebooks: 0,
    speaker_embeddings: 0,
    formant_shift_embeddings: 0,
    key_value_speaker_embeddings: 0,
};

#[test]
fn load_model_reads_every_step_and_makes_a_warm_model() {
    let asked: RefCell<Vec<(LoadStep, TableLengths)>> = RefCell::new(Vec::new());
    let loaded = Beatrice::load_model("2.0.0-rc.0", &newest_files(), "folder".to_string(), |step, lengths| {
        asked.borrow_mut().push((step, lengths));
        answer(step, lengths, 2, true)
    })
    .unwrap();
    assert_eq!(
        asked.into_inner(),
        vec![
            (LoadStep::PhoneExtractor, NO_TABLES),
            (LoadStep::PitchEstimator, NO_TABLES),
            (LoadStep::WaveformGenerator, NO_TABLES),
            (LoadStep::EmbeddingSetter, NO_TABLES),
            (LoadStep::SpeakerCount, NO_TABLES),
            (
                LoadStep::SpeakerEmbeddings,
                TableLengths {
                    codebooks: 3 * 512 * 128,
                    speaker_embeddings: 3 * 256,
                    formant_shift_embeddings: 9 * 256,
                    key_value_speaker_embeddings: 3 * 384 * 128,
                }
            ),
        ]
    );
    assert_eq!(loaded.key_value_blocks, vec![0, 1, 2, 3]);
    let mut model = loaded.model;
    assert_eq!(model.get_n_speaker(), Some(2));
    assert_eq!(model.get_model_path(), "folder");
    assert_eq!(model.generation(), Generation::Rc0);
    assert_eq!(model.info().target_speaker, 0);
    assert_eq!(model.formant_shift_embedding(), vec![3; 256]);
    assert!(model.is_warm());
    assert_eq!(model.begin_frame().key_value_block, None);
    assert_eq!(model.held_len(), 0);
    match model.speaker_embeddings() {
        beatrice_lib::beatrice::SpeakerEmbeddings::Newest { codebook, additive, key_value } => {
            assert_eq!(codebook.len(), 512 * 128);
            assert_eq!(additive.len(), 256);
            assert_eq!(key_value.len(), 384 * 128);
        }
        _ => panic!("wrong generation"),
    }
}

#[test]
fn load_model_of_an_earlier_generation() {
    let asked: RefCell<Vec<(LoadStep, TableLengths)>> = RefCell::new(Vec::new());
    let loaded = Beatrice::load_model("2.0.0-beta.1", &earlier_files(), "b".to_string(), |step, lengths| {
        asked.borrow_mut().push((step, lengths));
        answer(step, lengths, 1, false)
    })
    .unwrap();
    let asked = asked.into_inner();
    assert_eq!(asked[4], (LoadStep::SpeakerEmbeddings, TableLengths { speaker_embeddings: 2 * 256, ..NO_TABLES }));
    assert_eq!(
        asked[5],
        (LoadStep::FormantShiftEmbeddings, TableLengths { formant_shift_embeddings: 9 * 256, ..NO_TABLES })
    );
    assert!(loaded.key_value_blocks.is_empty());
    let mut model = loaded.model;
    assert_eq!(model.generation(), Generation::Beta1);
    assert_eq!(model.get_n_speaker(), Some(1));
    assert_eq!(model.formant_shift_embedding(), vec![6; 256]);
    model.set_target_speaker(1).unwrap();
    match model.speaker_embeddings() {
        beatrice_lib::beatrice::SpeakerEmbeddings::Earlier { speaker } => assert_eq!(speaker, vec![5; 256]),
        _ => panic!("wrong generation"),
    }
}

#[test]
fn load_model_stops_at_the_first_failure() {
    let asked: RefCell<Vec<LoadStep>> = RefCell::new(Vec::new());
    let r = Beatrice::load_model("2.0.0-rc.0", &newest_files(), "folder".to_string(), |step, lengths| {
        asked.borrow_mut().push(step);
        if step == LoadStep::WaveformGenerator {
            StepAnswer { code: Beatrice_ErrorCode::Beatrice_kFileTooSmall, n_speakers: 0, tables: Vec::new() }
        } else {
            answer(step, lengths, 2, true)
        }
    });
    assert!(matches!(r, Err(BeatriceError::FileTooSmall)));
    assert_eq!(
        asked.into_inner(),
        vec![LoadStep::PhoneExtractor, LoadStep::PitchEstimator, LoadStep::WaveformGenerator]
    );
}

#[test]
fn load_model_reads_nothing_from_an_incomplete_folder() {
    let mut partial = newest_files();
    partial.retain(|f| f != "embedding_setter.bin");
    let r = Beatrice::load_model("2.0.0-rc.0", &partial, "folder".to_string(), |_step, _lengths| {
        panic!("nothing is read from an incomplete folder")
    });
    assert!(matches!(r, Err(BeatriceError::FileOpenError)));
    let r = Beatrice::load_model("1.0.0", &newest_files(), "folder".to_string(), |_step, _lengths| {
        panic!("nothing is read for an unknown version")
    });
    assert!(matches!(r, Err(BeatriceError::FileOpenError)));
}

#[test]
fn load_model_refuses_tables_of_another_shape() {
    let r = Beatrice::load_model("2.0.0-rc.0", &newest_files(), "folder".to_string(), |step, lengths| {
        let mut a = answer(step, lengths, 2, true);
        if step == LoadStep::SpeakerEmbeddings {
            a.tables.pop();
        }
        a
    });
    assert!(matches!(r, Err(BeatriceError::InvalidFileSize)));
    let r = Beatrice::load_model("2.0.0-beta.1", &earlier_files(), "folder".to_string(), |step, lengths| {
        let mut a = answer(step, lengths, 2, false);
        if step == LoadStep::FormantShiftEmbeddings {
            a.tables[0].push(0);
        }
        a
    });
    assert!(matches!(r, Err(BeatriceError::InvalidFileSize)));
    let r = Beatrice::load_model("2.0.0-beta.1", &earlier_files(), "folder".to_string(), |step, lengths| {
        answer(step, lengths, -3, false)
    });
    assert!(matches!(r, Err(BeatriceError::InvalidFileSize)));
}

#[test]
fn table_lengths_of_each_step() {
    assert_eq!(table_lengths(Generation::Rc0, LoadStep::PhoneExtractor, 5), NO_TABLES);
    assert_eq!(table_lengths(Generation::Rc0, LoadStep::FormantShiftEmbeddings, 5).formant_shift_embeddings, 2304);
    let newest = table_lengths(Generation::Rc0, LoadStep::SpeakerEmbeddings, 0);
    assert_eq!(
        (newest.codebooks, newest.speaker_embeddings, newest.formant_shift_embeddings, newest.key_value_speaker_embeddings),
        (65536, 256, 2304, 49152)
    );
    let earlier = table_lengths(Generation::Alpha, LoadStep::SpeakerEmbeddings, 9);
    assert_eq!(earlier, TableLengths { speaker_embeddings: 2560, ..NO_TABLES });
    let most = table_lengths(Generation::Rc0, LoadStep::SpeakerEmbeddings, i32::MAX);
    assert_eq!(most.codebooks, (1u64 << 31) * 65536);
    assert_eq!(table_lengths(Generation::Rc0, LoadStep::SpeakerEmbeddings, -4).codebooks, 0);
}
