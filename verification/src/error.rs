//! The failures that saving and loading can report.
use vstd::prelude::*;

verus! {

/// `std::io::Error`, carried through as the cause of a failure; nothing is read from it here.
#[verifier::external_type_specification]
#[verifier::external_body]
pub struct ExIoError(std::io::Error);

/// `std::path::PathBuf`, carried through as the path that was refused.
#[verifier::external_type_specification]
#[verifier::external_body]
pub struct ExPathBuf(std::path::PathBuf);

/// Why a save or a load did not go through.
#[derive(Debug)]
#[must_use]
pub enum Error {
    /// The magic token or the version byte is not the expected one.
    InvalidHeader(String),
    /// The sink refused the header.
    WriteHeaderFailed(std::io::Error),
    /// The compressor failed.
    EncodingFailed(std::io::Error),
    /// The decompressor failed.
    DecodingFailed(std::io::Error),
    /// The value could not be turned into bytes.
    SerializationFailed(String),
    /// The bytes could not be turned back into a value.
    DeserializationFailed(String),
    /// The path cannot be used.
    InvalidPath(std::path::PathBuf),
    /// The storage backend failed; `context` says at which step.
    Io { source: std::io::Error, context: String },
    /// Any other failure, described in words.
    Custom(String),
}

impl Error {
    /// A storage failure together with the step at which it happened.
    pub fn io(source: std::io::Error, context: &str) -> (error: Self)
        ensures
            error matches Error::Io { source: s, context: c } && s == source && c@ == context@,
    {
        Error::Io { source, context: context.to_owned() }
    }

    /// A failure described in words.
    pub fn custom(error: &str) -> (custom: Self)
        ensures
            custom matches Error::Custom(text) && text@ == error@,
    {
        Error::Custom(error.to_owned())
    }
}

} // verus!
