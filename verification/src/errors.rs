//! Errors of the source-resolution layer. Absence of a file is never an
//! error; every variant here aborts the whole resolution.

use vstd::prelude::*;

verus! {

/// Model of a resolution error.
pub enum ErrorData {
    /// A source's content could not be made available; carries a message.
    Fetch(Seq<char>),
    /// A discovered plugin definition is not well-formed TOML; carries the
    /// offending path.
    Parse(Seq<char>),
    /// A discovered plugin definition parsed but violates the expected
    /// shape; carries the offending path.
    Validate(Seq<char>),
    /// The merged document could not populate the typed configuration.
    Config,
}

/// An error of the source-resolution layer.
#[derive(Debug, PartialEq, Eq)]
pub enum SourceError {
    Fetch { message: String },
    Parse { path: String },
    Validate { path: String },
    Config,
}

impl View for SourceError {
    type V = ErrorData;

    open spec fn view(&self) -> ErrorData {
        match self {
            SourceError::Fetch { message } => ErrorData::Fetch(message@),
            SourceError::Parse { path } => ErrorData::Parse(path@),
            SourceError::Validate { path } => ErrorData::Validate(path@),
            SourceError::Config => ErrorData::Config,
        }
    }
}

impl Clone for SourceError {
    fn clone(&self) -> (r: Self)
        ensures
            r@ == self@,
    {
        match self {
            SourceError::Fetch { message } => SourceError::Fetch { message: message.clone() },
            SourceError::Parse { path } => SourceError::Parse { path: path.clone() },
            SourceError::Validate { path } => SourceError::Validate { path: path.clone() },
            SourceError::Config => SourceError::Config,
        }
    }
}

/// The operator guidance shown when a source's document fails validation:
/// this failure is most often a version skew between the client and the
/// declared source, not an authoring error.
pub open spec fn source_parse_error_text() -> Seq<char> {
    "There was an error reading configuration from one of your declared Sources.\n\nPlease make sure you are using the latest version of the CLI with `qlty upgrade`.\n\nAlso, please make sure you are specifying the latest source tag in your qlty.toml file.\n\nFor more information, please visit: https://qlty.io/docs/troubleshooting/source-parse-error"@
}

/// The guidance text itself.
pub fn source_parse_error() -> (r: &'static str)
    ensures
        r@ == source_parse_error_text(),
{
    "There was an error reading configuration from one of your declared Sources.\n\nPlease make sure you are using the latest version of the CLI with `qlty upgrade`.\n\nAlso, please make sure you are specifying the latest source tag in your qlty.toml file.\n\nFor more information, please visit: https://qlty.io/docs/troubleshooting/source-parse-error"
}

/// The text `message` renders for a given error.
pub open spec fn spec_message(e: ErrorData) -> Seq<char> {
    match e {
        ErrorData::Fetch(m) => "Could not fetch a declared source: "@ + m,
        ErrorData::Parse(p) => "Could not parse "@ + p,
        ErrorData::Validate(p) => source_parse_error_text() + "\n\nCould not validate "@ + p,
        ErrorData::Config => "Could not process the plugin configuration"@,
    }
}

impl SourceError {
    /// Human-readable description of the failure; a validation failure
    /// carries the remediation guidance and the offending file's path.
    pub fn message(&self) -> (r: String)
        ensures
            r@ == spec_message(self@),
    {
        match self {
            SourceError::Fetch { message } => {
                let mut s = "Could not fetch a declared source: ".to_owned();
                s.append(message.as_str());
                s
            },
            SourceError::Parse { path } => {
                let mut s = "Could not parse ".to_owned();
                s.append(path.as_str());
                s
            },
            SourceError::Validate { path } => {
                let mut s = source_parse_error().to_owned();
                s.append("\n\nCould not validate ");
                s.append(path.as_str());
                s
            },
            SourceError::Config => "Could not process the plugin configuration".to_owned(),
        }
    }
}

} // verus!
