use beatrice_lib::errors::BeatriceError;
use beatrice_lib::errors::Beatrice_ErrorCode;

#[test]
fn success_is_no_error() {
    assert!(BeatriceError::try_from(Beatrice_ErrorCode::Beatrice_kSuccess).is_err());
}

#[test]
fn each_failure_code_maps_to_its_error() {
    assert!(matches!(
        BeatriceError::try_from(Beatrice_ErrorCode::Beatrice_kFileOpenError),
        Ok(BeatriceError::FileOpenError)
    ));
    assert!(matches!(
        BeatriceError::try_from(Beatrice_ErrorCode::Beatrice_kFileTooSmall),
        Ok(BeatriceError::FileTooSmall)
    ));
    assert!(matches!(
        BeatriceError::try_from(Beatrice_ErrorCode::Beatrice_kFileTooLarge),
        Ok(BeatriceError::FileTooLarge)
    ));
    assert!(matches!(
        BeatriceError::try_from(Beatrice_ErrorCode::Beatrice_kInvalidFileSize),
        Ok(BeatriceError::InvalidFileSize)
    ));
}

#[test]
fn codes_round_trip_through_integers() {
    let all = [
        Beatrice_ErrorCode::Beatrice_kSuccess,
        Beatrice_ErrorCode::Beatrice_kFileOpenError,
        Beatrice_ErrorCode::Beatrice_kFileTooSmall,
        Beatrice_ErrorCode::Beatrice_kFileTooLarge,
        Beatrice_ErrorCode::Beatrice_kInvalidFileSize,
    ];
    for (i, code) in all.iter().enumerate() {
        assert_eq!(code.code(), i as i32);
        assert_eq!(Beatrice_ErrorCode::from_code(i as i32), Some(*code));
    }
    assert_eq!(Beatrice_ErrorCode::from_code(5), None);
    assert_eq!(Beatrice_ErrorCode::from_code(-1), None);
}

#[test]
fn error_messages() {
    assert_eq!(BeatriceError::ModelNotLoaded.to_string(), "ModelNotLoaded");
    assert_eq!(BeatriceError::SpeakerOutOfRange.to_string(), "SpeakerOutOfRange");
    assert_eq!(BeatriceError::FileOpenError.to_string(), "FileOpenError");
    assert_eq!(BeatriceError::FileTooSmall.to_string(), "FileTooSmall");
    assert_eq!(BeatriceError::FileTooLarge.to_string(), "FileTooLarge");
    assert_eq!(BeatriceError::InvalidFileSize.to_string(), "InvalidFileSize");
    assert_eq!(
        BeatriceError::IOError("no such file".to_string()).to_string(),
        "IO Error: no such file"
    );
    assert_eq!(
        BeatriceError::TomlError("bad".to_string()).to_string(),
        "toml deserialize Error: bad"
    );
    assert_eq!(BeatriceError::NulError("nul".to_string()).to_string(), "NulError: nul");
}
