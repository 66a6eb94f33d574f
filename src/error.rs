use vstd::prelude::*;

verus! {

/// The kinds of failure that the library reports. Every one is produced
/// before any output is built.
#[derive(Clone, Copy, Debug, PartialEq, Eq, Structural)]
pub enum ErrorKind {
    /// Text that is not the Base58 form of exactly 32 bytes.
    InvalidAddress,
    /// A secret key of the wrong length, or whose public half does not
    /// belong to its private half.
    InvalidKeyMaterial,
    /// A signature or public key of the wrong length.
    InvalidInputLength,
    /// Text that is not valid Base58 or Base64.
    InvalidEncoding,
    /// A zero amount.
    InvalidAmount,
    /// More than 18 decimals for a mint.
    InvalidDecimals,
    /// The token program refused to build the instruction.
    ProgramRejected,
}

/// A failed request, carrying the kind of failure.
#[derive(Clone, Copy, Debug, PartialEq, Eq, Structural)]
pub struct AppError(pub ErrorKind);

impl AppError {
    pub fn kind(&self) -> (r: ErrorKind)
        ensures
            r == self.0,
    {
        self.0
    }
}

} // verus!
