//! The error taxonomy: every failure is surfaced synchronously with a
//! discriminated kind; none is swallowed or retried.

use vstd::prelude::*;
use crate::lang::Language;

verus! {

/// The configuration field a validation failure names.
#[derive(Clone, Copy, Debug, PartialEq, Eq, Structural)]
pub enum ConfigField {
    MaxLength,
    MinLength,
    NumBeams,
    Temperature,
    TopP,
    RepetitionPenalty,
    NumReturnSequences,
    SourceLanguages,
    TargetLanguages,
    ResourceBundle,
}

/// Every failure the library can report.
#[derive(Debug, PartialEq, Eq)]
pub enum TranslationError {
    /// The model identifier is not recognized; carries the identifier.
    UnknownModel(String),
    /// A decoding parameter violates an invariant; names the field.
    InvalidConfig(ConfigField),
    /// Loading the model failed; carries the underlying cause. Fatal to
    /// the engine instance being constructed.
    ModelLoad(String),
    /// The requested pair is outside the configured language sets.
    UnsupportedLanguagePair(Language, Language),
    /// The request text is empty.
    EmptyInput,
    /// The underlying model failed during one call; carries the cause.
    /// Isolated to that call.
    Inference(String),
    /// The engine was disposed; no further calls are permitted.
    EngineDisposed,
}

impl TranslationError {
    /// A short human-readable name of the error's kind.
    pub fn kind_message(&self) -> (m: &'static str)
        ensures
            self is UnknownModel ==> m@ == "unknown model identifier"@,
            self is InvalidConfig ==> m@ == "invalid decoding configuration"@,
            self is ModelLoad ==> m@ == "model load failed"@,
            self is UnsupportedLanguagePair ==> m@ == "unsupported language pair"@,
            self is EmptyInput ==> m@ == "empty input text"@,
            self is Inference ==> m@ == "inference failed"@,
            self is EngineDisposed ==> m@ == "engine already disposed"@,
    {
        match self {
            TranslationError::UnknownModel(_) => "unknown model identifier",
            TranslationError::InvalidConfig(_) => "invalid decoding configuration",
            TranslationError::ModelLoad(_) => "model load failed",
            TranslationError::UnsupportedLanguagePair(_, _) => "unsupported language pair",
            TranslationError::EmptyInput => "empty input text",
            TranslationError::Inference(_) => "inference failed",
            TranslationError::EngineDisposed => "engine already disposed",
        }
    }
}

} // verus!
