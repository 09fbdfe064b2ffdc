//! Errors raised while converting what the TTD SDK reports.
use vstd::prelude::*;

verus! {

/// Errors of the low-level layer that talks to the TTD SDK.
#[derive(Debug)]
pub enum Error {
    Unknown,
    Generic(String),
    Utf8Error,
    Utf16Error,
    ForeignFunctionError,
    ConversionError,
}

impl Default for Error {
    fn default() -> (r: Self)
        ensures
            r == Error::Unknown,
    {
        Error::Unknown
    }
}

} // verus!
