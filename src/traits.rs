use vstd::prelude::*;
use vstd::slice::slice_to_vec;
use crate::algorithm::Algorithm;
use crate::error::CryptoError;

verus! {

/// A signature value that can be handed on as raw bytes.
pub trait SignatureBytes {
    /// The bytes this value stands for.
    spec fn bytes(&self) -> Seq<u8>;

    fn as_bytes(&self) -> (r: &[u8])
        ensures
            r@ == self.bytes(),
    ;
}

impl SignatureBytes for Vec<u8> {
    open spec fn bytes(&self) -> Seq<u8> {
        self@
    }

    fn as_bytes(&self) -> (r: &[u8]) {
        self.as_slice()
    }
}

/// The capability to sign payloads under the algorithm family `A`.
///
/// What a signer produces is described by the relation `produces`, not by a
/// function: a signer may use randomised padding, so two signatures over the
/// same payload may differ. The defaults claim nothing; a verified implementer
/// states its own.
pub trait Signing<A: Algorithm>: std::fmt::Debug {
    type Signature: SignatureBytes;

    /// Whether a real signer stands behind this value.
    open spec fn can_sign(&self) -> bool {
        true
    }

    /// Whether `sig` is a signature this signer may produce for `data`.
    open spec fn produces(&self, data: Seq<u8>, sig: Seq<u8>) -> bool {
        true
    }

    /// Whether signing `data` may fail.
    open spec fn fails(&self, data: Seq<u8>) -> bool {
        true
    }

    /// Signs `data`. Calling it where no signer is configured is a defect of
    /// the call site, hence the precondition.
    fn sign(&self, data: &[u8]) -> (r: Result<Self::Signature, CryptoError>)
        requires
            self.can_sign(),
        ensures
            match r {
                Ok(s) => self.produces(data@, s.bytes()),
                Err(e) => self.fails(data@) && e == CryptoError::SigningFailed,
            },
    ;
}

/// The capability to check signatures under the algorithm family `A`.
///
/// The outcome of `verify` is described by two relations: `accepts` for the
/// pairs it may let through and `rejects` for those it may refuse. An exact
/// verifier makes `rejects` the negation of `accepts`; the defaults claim
/// nothing.
pub trait Verifying<A: Algorithm>: std::fmt::Debug {
    type Signature: SignatureBytes;

    /// Whether a real verifier stands behind this value.
    open spec fn can_verify(&self) -> bool {
        true
    }

    /// Whether `verify` may succeed on `data` and `sig`.
    open spec fn accepts(&self, data: Seq<u8>, sig: Seq<u8>) -> bool {
        true
    }

    /// Whether `verify` may fail on `data` and `sig`.
    open spec fn rejects(&self, data: Seq<u8>, sig: Seq<u8>) -> bool {
        true
    }

    /// Checks untrusted signature bytes against `data`.
    fn verify(&self, data: &[u8], signature: &[u8]) -> (r: Result<(), CryptoError>)
        requires
            self.can_verify(),
        ensures
            match r {
                Ok(()) => self.accepts(data@, signature@),
                Err(e) => self.rejects(data@, signature@) && e == CryptoError::VerificationFailed,
            },
    ;
}

/// A borrowed signer signs exactly as the signer itself.
impl<'a, A: Algorithm, T: Signing<A>> Signing<A> for &'a T {
    type Signature = T::Signature;

    open spec fn can_sign(&self) -> bool {
        T::can_sign(*self)
    }

    open spec fn produces(&self, data: Seq<u8>, sig: Seq<u8>) -> bool {
        T::produces(*self, data, sig)
    }

    open spec fn fails(&self, data: Seq<u8>) -> bool {
        T::fails(*self, data)
    }

    fn sign(&self, data: &[u8]) -> (r: Result<Self::Signature, CryptoError>) {
        T::sign(*self, data)
    }
}

/// A borrowed verifier verifies exactly as the verifier itself.
impl<'a, A: Algorithm, T: Verifying<A>> Verifying<A> for &'a T {
    type Signature = T::Signature;

    open spec fn can_verify(&self) -> bool {
        T::can_verify(*self)
    }

    open spec fn accepts(&self, data: Seq<u8>, sig: Seq<u8>) -> bool {
        T::accepts(*self, data, sig)
    }

    open spec fn rejects(&self, data: Seq<u8>, sig: Seq<u8>) -> bool {
        T::rejects(*self, data, sig)
    }

    fn verify(&self, data: &[u8], signature: &[u8]) -> (r: Result<(), CryptoError>) {
        T::verify(*self, data, signature)
    }
}

/// Stand-in for a signer that was never configured.
///
/// It claims no capability, so verified code cannot call `sign` on it; an
/// unverified caller that does aborts with a message naming the trait.
impl<A: Algorithm> Signing<A> for std::marker::PhantomData<A> {
    type Signature = Vec<u8>;

    open spec fn can_sign(&self) -> bool {
        false
    }

    open spec fn produces(&self, data: Seq<u8>, sig: Seq<u8>) -> bool {
        false
    }

    open spec fn fails(&self, data: Seq<u8>) -> bool {
        false
    }

    fn sign(&self, _data: &[u8]) -> (r: Result<Vec<u8>, CryptoError>) {
        Option::<Result<Vec<u8>, CryptoError>>::None.expect(
            "no signer configured: to sign, implement `sign` of the `Signing` trait",
        )
    }
}

/// Stand-in for a verifier that was never configured.
///
/// It claims no capability, so verified code cannot call `verify` on it; an
/// unverified caller that does aborts with a message naming the trait.
impl<A: Algorithm> Verifying<A> for std::marker::PhantomData<A> {
    type Signature = Vec<u8>;

    open spec fn can_verify(&self) -> bool {
        false
    }

    open spec fn accepts(&self, data: Seq<u8>, sig: Seq<u8>) -> bool {
        false
    }

    open spec fn rejects(&self, data: Seq<u8>, sig: Seq<u8>) -> bool {
        false
    }

    fn verify(&self, _data: &[u8], _signature: &[u8]) -> (r: Result<(), CryptoError>) {
        Option::<Result<(), CryptoError>>::None.expect(
            "no verifier configured: to verify, implement `verify` of the `Verifying` trait",
        )
    }
}

/// Signs `data` and hands the signature on as plain bytes, whatever the
/// signer's own signature type.
pub fn sign_to_bytes<A: Algorithm, S: Signing<A>>(signer: &S, data: &[u8]) -> (r: Result<
    Vec<u8>,
    CryptoError,
>)
    requires
        signer.can_sign(),
    ensures
        match r {
            Ok(b) => signer.produces(data@, b@),
            Err(e) => signer.fails(data@) && e == CryptoError::SigningFailed,
        },
{
    match signer.sign(data) {
        Ok(s) => Ok(slice_to_vec(s.as_bytes())),
        Err(e) => Err(e),
    }
}

/// Signing through a reference is indistinguishable from signing through the
/// value: the borrowed signer is configured exactly when the value is, may
/// produce exactly the same signatures, and may fail on exactly the same
/// payloads.
pub proof fn lemma_sign_through_reference<A: Algorithm, T: Signing<A>>(
    signer: &T,
    data: Seq<u8>,
    sig: Seq<u8>,
)
    ensures
        <&T as Signing<A>>::can_sign(&signer) == signer.can_sign(),
        <&T as Signing<A>>::produces(&signer, data, sig) == signer.produces(data, sig),
        <&T as Signing<A>>::fails(&signer, data) == signer.fails(data),
{
}

/// Verifying through a reference is indistinguishable from verifying through
/// the value: the borrowed verifier is configured exactly when the value is,
/// and may accept and reject exactly the same signatures.
pub proof fn lemma_verify_through_reference<A: Algorithm, T: Verifying<A>>(
    verifier: &T,
    data: Seq<u8>,
    sig: Seq<u8>,
)
    ensures
        <&T as Verifying<A>>::can_verify(&verifier) == verifier.can_verify(),
        <&T as Verifying<A>>::accepts(&verifier, data, sig) == verifier.accepts(data, sig),
        <&T as Verifying<A>>::rejects(&verifier, data, sig) == verifier.rejects(data, sig),
{
}

/// The absent-capability stand-in claims neither capability, so no verified
/// caller can reach its `sign` or `verify`, and neither has an outcome to
/// return: no signature, no acceptance and no error.
pub proof fn lemma_absent_capability<A: Algorithm>(
    absent: std::marker::PhantomData<A>,
    data: Seq<u8>,
    sig: Seq<u8>,
)
    ensures
        !Signing::<A>::can_sign(&absent),
        !Verifying::<A>::can_verify(&absent),
        !Signing::<A>::produces(&absent, data, sig),
        !Signing::<A>::fails(&absent, data),
        !Verifying::<A>::accepts(&absent, data, sig),
        !Verifying::<A>::rejects(&absent, data, sig),
{
}

} // verus!
