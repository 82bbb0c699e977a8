use vstd::prelude::*;

verus! {

/// The two recoverable failures of the capability layer.
#[derive(Debug, Clone, Copy, PartialEq, Eq, Structural)]
pub enum CryptoError {
    /// A signer could not produce a signature.
    SigningFailed,
    /// A signature did not validate, or its bytes could not be used.
    VerificationFailed,
}

} // verus!
