//! Errors and result types for the emulator.

use vstd::prelude::*;

verus! {

/// The kinds of failure the emulator reports.
#[derive(Debug, Clone, Copy, PartialEq, Eq, Structural)]
pub enum GbErrorType {
    NotInitialized,
    AlreadyInitialized,
    OutOfBounds,
    InvalidCpuInstruction,
    FileError,
    BadValue,
    Unsupported,
}

/// An error, with the place in the sources where it was raised.
#[derive(Debug, Clone, Copy)]
pub struct GbError {
    pub error: GbErrorType,
    pub line: u32,
    pub file: &'static str,
}

pub type GbResult<T> = Result<T, GbError>;

impl GbError {
    pub fn new(error: GbErrorType, file: &'static str, line: u32) -> (e: GbError)
        ensures
            e.error == error,
            e.file == file,
            e.line == line,
    {
        GbError { error, line, file }
    }
}

/// What a result says once the place of an error is forgotten.
pub open spec fn outcome<T>(r: GbResult<T>) -> Result<T, GbErrorType> {
    match r {
        Ok(v) => Ok(v),
        Err(e) => Err(e.error),
    }
}

} // verus!
