//! The library's error type.
use vstd::prelude::*;
use crate::cbor::CborError;

verus! {

/// KeyMint error codes that the library reports.
#[derive(Clone, Copy, Debug, PartialEq, Eq, Structural)]
pub enum ErrorCode {
    InvalidArgument,
    InvalidKeyBlob,
    IncompatibleKeyFormat,
    IncompatiblePurpose,
    RollbackResistanceUnavailable,
    UnsupportedKeySize,
    UnknownError,
}

/// Errors of the library.
#[derive(Clone, Copy, Debug, PartialEq, Eq)]
pub enum Error {
    /// A CBOR conversion failed.
    Cbor(CborError),
    /// A KeyMint operation failed with the given code.
    Hal(ErrorCode),
    /// Memory could not be allocated.
    Alloc,
}

/// The error that a failed CBOR conversion becomes.
pub fn cbor_error(e: CborError) -> (r: Error)
    ensures
        r == Error::Cbor(e),
{
    Error::Cbor(e)
}

} // verus!
