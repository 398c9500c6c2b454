//! Error taxonomy of the driver: transport failures, framing failures and
//! protocol violations are kept apart so that a caller can tell a transient
//! bus problem from a need to re-synchronise with the device.

use vstd::prelude::*;

verus! {

/// Failure reported by the SHDLC byte-stuffing codec.
///
/// The variants mirror, one for one, the faults that the codec can report
/// while framing or de-framing a byte stream.
#[derive(Debug, PartialEq, Eq)]
pub enum HdlcError {
    /// Two special characters were given the same value.
    DuplicateSpecialChar,
    /// A bare frame-end byte stood inside the framed data.
    FendCharInData,
    /// An escape byte was not followed by a valid trade byte.
    MissingTradeChar,
    /// The stream did not begin with a frame-end byte.
    MissingFirstFend,
    /// The stream did not close with a frame-end byte.
    MissingFinalFend,
    /// More bytes than the codec accepts in one frame.
    TooMuchData,
    /// Fewer than four bytes: no stream this short delimits a frame.
    TooFewData,
    /// The checksum of a decoded frame is invalid.
    InvalidChecksum,
    /// The de-stuffed payload exceeds the codec's payload cap.
    TooMuchDecodedData,
}

/// Errors of this driver.
///
/// `E` is the transport's write error, `F` its read error.
#[derive(Debug, PartialEq, Eq)]
pub enum Error<E, F> {
    /// Serial bus read error
    SerialR(F),
    /// Serial bus write error
    SerialW(E),
    /// SHDLC decode error
    SHDLC(HdlcError),
    /// No valid frame read: 600 bytes were read without two frame delimiters,
    /// or a measurement response had a length no command shape allows.
    InvalidFrame,
    /// Result is empty
    EmptyResult,
    /// Checksum failed, after SHDLC decode
    ChecksumFailed,
    /// Response is for another CommandType
    InvalidRespose,
    /// Device returned an error (state field of the response is not 0)
    StatusError,
}

} // verus!
