//! Errors reported by the library.

use vstd::prelude::*;

verus! {

/// Error of a library operation, by kind, with its message.
#[derive(Debug, Clone)]
pub enum AppError {
    /// The environment (Python, uv, MinerU, MarkItDown) is not usable.
    Environment(String),
    /// A request is contradictory or malformed.
    Validation(String),
    /// A file cannot be used.
    File(String),
    /// A document format is not supported.
    UnsupportedFormat(String),
    /// A task does not exist or cannot change state.
    Task(String),
    /// The MinerU engine failed.
    MinerU(String),
    /// A configured limit or setting forbids the operation.
    Config(String),
    /// The MarkItDown engine failed.
    MarkItDown(String),
}

impl AppError {
    /// The message carried by the error.
    pub open spec fn message(self) -> Seq<char> {
        match self {
            AppError::Environment(m) => m@,
            AppError::Validation(m) => m@,
            AppError::File(m) => m@,
            AppError::UnsupportedFormat(m) => m@,
            AppError::Task(m) => m@,
            AppError::MinerU(m) => m@,
            AppError::Config(m) => m@,
            AppError::MarkItDown(m) => m@,
        }
    }
}

} // verus!
