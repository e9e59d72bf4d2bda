use vstd::prelude::*;

verus! {

/// The stable error codes that fallible operations of this library report.
#[derive(Clone, Copy, Debug, PartialEq, Eq, Structural)]
pub enum ErrorCode {
    /// Malformed input to a decoder.
    InvalidData,
    /// Malformed or wrong-length text or key material.
    InvalidFormat,
    /// A caller-supplied parameter (an output buffer) is too small.
    InvalidParam,
    /// A buffer is too small to encode into or too short to decode from.
    OutOfLimit,
    /// A parameter value the algorithm does not support (an RSA size).
    UnSupport,
    /// An operation that the key's algorithm does not define.
    NotSupport,
    /// The underlying primitive rejected the operation.
    CryptoError,
    /// An unrecognised algorithm tag.
    NotMatch,
}

} // verus!
