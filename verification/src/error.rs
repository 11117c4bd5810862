use vstd::prelude::*;

verus! {

/// Why a request on an extended key failed.
#[derive(Clone, Copy, Debug, PartialEq, Eq, Structural)]
pub enum KeyError {
    /// The text holds a character outside the Base58 alphabet.
    EncodingError,
    /// The decoded buffer does not have the length of an extended key.
    LengthError,
    /// The trailing four bytes are not the checksum of the body.
    ChecksumMismatch,
    /// The version prefix is not the one the caller named.
    WrongVersion,
    /// The version prefix is none of the recognized ones.
    UnsupportedKeyType,
    /// The path crosses a hardened index, which needs the private key.
    HardenedDerivationUnsupported,
    /// The key data is no curve point, or the point arithmetic failed.
    CurveError,
    /// The parent already sits at depth 255, the deepest a serialized key can record.
    MaximumDepthExceeded,
}

} // verus!
