//! The ways in which an operation on a chunk can fail.

use vstd::prelude::*;

verus! {

/// Why an operation on a chunk was refused. Every error ends the operation
/// that raised it; nothing is retried and no partial result is handed out.
#[derive(Debug, Clone, Copy, PartialEq, Eq, Structural)]
pub enum Error {
    /// The data length, declared or actual, is above 2^31 bytes.
    InvalidChunkLength,
    /// The checksum computed over type code and data is not the one the
    /// record carries.
    InvalidCRC,
    /// The input ends before the record does.
    Truncated,
    /// A length does not fit the width it is converted to. The bound on the
    /// data length rules this out, so no operation of this crate reports it.
    NumericConversion,
    /// The data is not valid UTF-8; only decoding the data as text reports
    /// this.
    InvalidUtf8,
}

} // verus!
