//! Error codes of the inference engine and the errors of this library.

use vstd::prelude::*;
use vstd::string::*;

verus! {

/// Result code that the inference engine returns from its parameter readers.
#[allow(non_camel_case_types)]
#[derive(Debug, Clone, Copy, PartialEq, Eq, Structural)]
pub enum Beatrice_ErrorCode {
    Beatrice_kSuccess,
    Beatrice_kFileOpenError,
    Beatrice_kFileTooSmall,
    Beatrice_kFileTooLarge,
    Beatrice_kInvalidFileSize,
}

impl Beatrice_ErrorCode {
    /// The integer that the engine uses for this code.
    pub open spec fn spec_code(self) -> int {
        match self {
            Beatrice_ErrorCode::Beatrice_kSuccess => 0,
            Beatrice_ErrorCode::Beatrice_kFileOpenError => 1,
            Beatrice_ErrorCode::Beatrice_kFileTooSmall => 2,
            Beatrice_ErrorCode::Beatrice_kFileTooLarge => 3,
            Beatrice_ErrorCode::Beatrice_kInvalidFileSize => 4,
        }
    }

    /// The integer that the engine uses for this code.
    pub fn code(self) -> (c: i32)
        ensures
            c == self.spec_code(),
    {
        match self {
            Beatrice_ErrorCode::Beatrice_kSuccess => 0,
            Beatrice_ErrorCode::Beatrice_kFileOpenError => 1,
            Beatrice_ErrorCode::Beatrice_kFileTooSmall => 2,
            Beatrice_ErrorCode::Beatrice_kFileTooLarge => 3,
            Beatrice_ErrorCode::Beatrice_kInvalidFileSize => 4,
        }
    }

    /// Reads an engine result code; `None` for an integer that is no code.
    pub fn from_code(c: i32) -> (r: Option<Beatrice_ErrorCode>)
        ensures
            r is Some <==> 0 <= c <= 4,
            r is Some ==> r->0.spec_code() == c,
    {
        if c == 0 {
            Some(Beatrice_ErrorCode::Beatrice_kSuccess)
        } else if c == 1 {
            Some(Beatrice_ErrorCode::Beatrice_kFileOpenError)
        } else if c == 2 {
            Some(Beatrice_ErrorCode::Beatrice_kFileTooSmall)
        } else if c == 3 {
            Some(Beatrice_ErrorCode::Beatrice_kFileTooLarge)
        } else if c == 4 {
            Some(Beatrice_ErrorCode::Beatrice_kInvalidFileSize)
        } else {
            None
        }
    }
}

/// Everything that can go wrong in the library.
#[derive(Debug)]
pub enum BeatriceError {
    /// A conversion was asked for while no model is active.
    ModelNotLoaded,
    /// The requested speaker is beyond the neutral slot of the loaded model.
    SpeakerOutOfRange,
    FileOpenError,
    FileTooSmall,
    FileTooLarge,
    InvalidFileSize,
    /// Reading a file failed; the text is the system's message.
    IOError(String),
    /// The manifest is no well-formed TOML document; the text is the parser's message.
    TomlError(String),
    /// A path holds a NUL byte; the text is the converter's message.
    NulError(String),
}

impl BeatriceError {
    /// The error that an engine result code stands for; `None` for success.
    pub open spec fn spec_from_code(value: Beatrice_ErrorCode) -> Option<BeatriceError> {
        match value {
            Beatrice_ErrorCode::Beatrice_kSuccess => None,
            Beatrice_ErrorCode::Beatrice_kFileOpenError => Some(BeatriceError::FileOpenError),
            Beatrice_ErrorCode::Beatrice_kFileTooSmall => Some(BeatriceError::FileTooSmall),
            Beatrice_ErrorCode::Beatrice_kFileTooLarge => Some(BeatriceError::FileTooLarge),
            Beatrice_ErrorCode::Beatrice_kInvalidFileSize => Some(BeatriceError::InvalidFileSize),
        }
    }

    /// Maps an engine result code to the error it reports. Success is no
    /// error, so it comes back as `Err(())`.
    pub fn try_from(value: Beatrice_ErrorCode) -> (r: Result<BeatriceError, ()>)
        ensures
            r is Err <==> value == Beatrice_ErrorCode::Beatrice_kSuccess,
            r is Ok ==> Some(r->Ok_0) == Self::spec_from_code(value),
    {
        match value {
            Beatrice_ErrorCode::Beatrice_kSuccess => Err(()),
            Beatrice_ErrorCode::Beatrice_kFileOpenError => Ok(BeatriceError::FileOpenError),
            Beatrice_ErrorCode::Beatrice_kFileTooSmall => Ok(BeatriceError::FileTooSmall),
            Beatrice_ErrorCode::Beatrice_kFileTooLarge => Ok(BeatriceError::FileTooLarge),
            Beatrice_ErrorCode::Beatrice_kInvalidFileSize => Ok(BeatriceError::InvalidFileSize),
        }
    }

    /// The text shown for this error.
    pub open spec fn spec_message(self) -> Seq<char> {
        match self {
            BeatriceError::ModelNotLoaded => "ModelNotLoaded"@,
            BeatriceError::SpeakerOutOfRange => "SpeakerOutOfRange"@,
            BeatriceError::FileOpenError => "FileOpenError"@,
            BeatriceError::FileTooSmall => "FileTooSmall"@,
            BeatriceError::FileTooLarge => "FileTooLarge"@,
            BeatriceError::InvalidFileSize => "InvalidFileSize"@,
            BeatriceError::IOError(m) => "IO Error: "@ + m@,
            BeatriceError::TomlError(m) => "toml deserialize Error: "@ + m@,
            BeatriceError::NulError(m) => "NulError: "@ + m@,
        }
    }

    /// The text shown for this error.
    pub fn to_string(&self) -> (s: String)
        ensures
            s@ == self.spec_message(),
    {
        match self {
            BeatriceError::ModelNotLoaded => String::from_str("ModelNotLoaded"),
            BeatriceError::SpeakerOutOfRange => String::from_str("SpeakerOutOfRange"),
            BeatriceError::FileOpenError => String::from_str("FileOpenError"),
            BeatriceError::FileTooSmall => String::from_str("FileTooSmall"),
            BeatriceError::FileTooLarge => String::from_str("FileTooLarge"),
            BeatriceError::InvalidFileSize => String::from_str("InvalidFileSize"),
            BeatriceError::IOError(m) => String::from_str("IO Error: ").concat(m.as_str()),
            BeatriceError::TomlError(m) => String::from_str("toml deserialize Error: ").concat(
                m.as_str(),
            ),
            BeatriceError::NulError(m) => String::from_str("NulError: ").concat(m.as_str()),
        }
    }
}

} // verus!
