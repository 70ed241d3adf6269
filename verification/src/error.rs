//! Error values of the application and of the speech-recognition engine.

use vstd::prelude::*;

verus! {

broadcast use vstd::string::group_string_axioms;

/// Typed error codes of the application.
#[derive(Debug, Clone, Copy, PartialEq, Eq, Structural)]
pub enum ErrorCode {
    /// Audio device failure.
    AudioDevice,
    /// Model could not be loaded.
    ModelLoad,
    /// Transcription failed.
    Inference,
    /// Configuration problem.
    Config,
    /// Input/output failure.
    Io,
    /// An audio command could not be sent.
    AudioSend,
    /// An event could not be emitted.
    ConfigEmit,
    /// A preset was not found.
    PresetNotFound,
    /// Anything else.
    Unexpected,
}

impl ErrorCode {
    /// The JSON text of the code: its name in SCREAMING_SNAKE_CASE inside
    /// double quotes, as the application serialises it.
    pub open spec fn json_text(self) -> Seq<char> {
        match self {
            ErrorCode::AudioDevice => "\"AUDIO_DEVICE\""@,
            ErrorCode::ModelLoad => "\"MODEL_LOAD\""@,
            ErrorCode::Inference => "\"INFERENCE\""@,
            ErrorCode::Config => "\"CONFIG\""@,
            ErrorCode::Io => "\"IO\""@,
            ErrorCode::AudioSend => "\"AUDIO_SEND\""@,
            ErrorCode::ConfigEmit => "\"CONFIG_EMIT\""@,
            ErrorCode::PresetNotFound => "\"PRESET_NOT_FOUND\""@,
            ErrorCode::Unexpected => "\"UNEXPECTED\""@,
        }
    }

    /// The code as text (its JSON form).
    pub fn to_string(&self) -> (res: String)
        ensures
            res@ == self.json_text(),
    {
        match self {
            ErrorCode::AudioDevice => "\"AUDIO_DEVICE\"".to_string(),
            ErrorCode::ModelLoad => "\"MODEL_LOAD\"".to_string(),
            ErrorCode::Inference => "\"INFERENCE\"".to_string(),
            ErrorCode::Config => "\"CONFIG\"".to_string(),
            ErrorCode::Io => "\"IO\"".to_string(),
            ErrorCode::AudioSend => "\"AUDIO_SEND\"".to_string(),
            ErrorCode::ConfigEmit => "\"CONFIG_EMIT\"".to_string(),
            ErrorCode::PresetNotFound => "\"PRESET_NOT_FOUND\"".to_string(),
            ErrorCode::Unexpected => "\"UNEXPECTED\"".to_string(),
        }
    }
}

/// An application error as the user interface receives it.
#[derive(Debug, Clone)]
pub struct AppError {
    pub code: String,
    pub message: String,
}

impl AppError {
    /// Whether this error carries exactly the given code and message.
    pub open spec fn is(self, code: Seq<char>, message: Seq<char>) -> bool {
        self.code@ == code && self.message@ == message
    }

    /// An error with the given code and message.
    pub fn new(code: &str, message: &str) -> (res: AppError)
        ensures
            res.is(code@, message@),
    {
        AppError { code: code.to_string(), message: message.to_string() }
    }

    /// An error whose code is the text of a typed code.
    pub fn from_code(code: ErrorCode, message: &str) -> (res: AppError)
        ensures
            res.is(code.json_text(), message@),
    {
        AppError { code: code.to_string(), message: message.to_string() }
    }
}

/// Errors of the speech-recognition engine.
#[derive(Debug, Clone)]
pub enum InferenceError {
    /// The input was not usable.
    InvalidInput(String),
    /// An input/output failure, with its description.
    Io(String),
    /// A download failed.
    Download(String),
    /// The model file does not have the expected digest.
    ChecksumMismatch { expected: String, actual: String },
    /// Resampling failed.
    Resample(String),
    /// The model configuration could not be read.
    ModelConfig(String),
    /// The tokenizer failed.
    Tokenizer(String),
    /// The model weights could not be loaded.
    ModelLoad(String),
    /// Running the model failed.
    Inference(String),
}

impl InferenceError {
    /// The error is `InvalidInput` with the given text.
    pub open spec fn is_invalid_input(self, text: Seq<char>) -> bool {
        self matches InferenceError::InvalidInput(t) && t@ == text
    }

    /// The error is `Download` with the given text.
    pub open spec fn is_download(self, text: Seq<char>) -> bool {
        self matches InferenceError::Download(t) && t@ == text
    }

    /// The error is `Inference` with the given text.
    pub open spec fn is_inference(self, text: Seq<char>) -> bool {
        self matches InferenceError::Inference(t) && t@ == text
    }
}

} // verus!
