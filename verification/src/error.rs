//! Errors of the high-level replay API.
use vstd::prelude::*;

use crate::sys_error;

verus! {

/// Errors of the high-level replay API.
#[derive(Debug)]
pub enum Error {
    Unknown,
    Generic(String),
    MissingValue,
    NotFound,
    DataMismatch,
    InitializationError,
    ConversionError,
    ForeignFunctionError,
    TtdSysError(sys_error::Error),
    Utf8Error,
    Utf16Error,
    Null,
    ParseError,
    LoggerError,
}

impl Default for Error {
    fn default() -> (r: Self)
        ensures
            r == Error::Unknown,
    {
        Error::Unknown
    }
}

} // verus!
