//! The cryptographic primitives and the clock, as this library sees them.
//!
//! Nothing in this file is proved. Each function makes one request of an
//! outside library, and its contract states what that library's source shows
//! of the answer. What a key or a signature is, mathematically, is named and
//! not defined here.

use ring::signature::KeyPair;
use rsa::pkcs8::EncodePrivateKey;
use vstd::prelude::*;

verus! {

/// The two curves that can sign.
#[derive(Debug, Clone, Copy, PartialEq, Eq, Structural)]
pub enum Curve {
    P256,
    P384,
}

/// The six RSA signature schemes: padding and hash.
#[derive(Debug, Clone, Copy, PartialEq, Eq, Structural)]
pub enum RsaScheme {
    PssSha256,
    PssSha384,
    PssSha512,
    Pkcs1Sha256,
    Pkcs1Sha384,
    Pkcs1Sha512,
}

/// Why a primitive produced no signature.
#[derive(Debug, Clone, Copy, PartialEq, Eq, Structural)]
pub enum SignFault {
    /// The private key bytes were not accepted as a key.
    KeyRejected,
    /// The key was accepted and the signing operation failed.
    SigningFailed,
}

impl Curve {
    /// The length in bytes of a fixed-length signature on this curve: the two
    /// scalars, each as long as the curve's order.
    pub open spec fn signature_len(self) -> nat {
        match self {
            Curve::P256 => 64,
            Curve::P384 => 96,
        }
    }
}

/// `ring::rand::SystemRandom`: a handle on the operating system's random
/// number generator. It is carried, never looked into.
#[verifier::external_type_specification]
#[verifier::external_body]
pub struct ExSystemRandom(ring::rand::SystemRandom);

/// `std::time::Instant`: a moment on the monotonic clock. It is carried,
/// never looked into.
#[verifier::external_type_specification]
#[verifier::external_body]
pub struct ExInstant(std::time::Instant);

/// The public key that the PKCS#8 document `pkcs8` holds for `curve`, in
/// uncompressed point form, where the document is accepted as a key pair of
/// that curve.
pub uninterp spec fn ecdsa_public_key(curve: Curve, pkcs8: Seq<u8>) -> Option<Seq<u8>>;

/// Whether `signature` is accepted as a fixed-length ECDSA signature of
/// `message` under `public_key` on `curve`, with the hash that belongs to the
/// curve.
pub uninterp spec fn ecdsa_verifies(
    curve: Curve,
    public_key: Seq<u8>,
    message: Seq<u8>,
    signature: Seq<u8>,
) -> bool;

/// The public key of the RSA key pair that the PKCS#8 document `pkcs8`
/// holds, as a DER sequence of modulus and exponent, where the document is
/// accepted as an RSA key pair.
pub uninterp spec fn rsa_public_key(pkcs8: Seq<u8>) -> Option<Seq<u8>>;

/// Whether `signature` is accepted as an RSA signature of `message` under
/// `public_key` with the padding and hash of `scheme`.
pub uninterp spec fn rsa_verifies(
    scheme: RsaScheme,
    public_key: Seq<u8>,
    message: Seq<u8>,
    signature: Seq<u8>,
) -> bool;

/// `ring::rand::SystemRandom::new`: a handle on the operating system's
/// random number generator. Nothing is claimed of it.
#[verifier::external_body]
pub(crate) fn system_random() -> (rng: ring::rand::SystemRandom) {
    ring::rand::SystemRandom::new()
}

/// `ring::signature::EcdsaKeyPair::generate_pkcs8`: a fresh key pair of
/// `curve` as a PKCS#8 document, or nothing where the generator fails. The
/// document depends on chance, so nothing is claimed of it.
#[verifier::external_body]
pub(crate) fn ecdsa_generate_pkcs8(curve: Curve, rng: &ring::rand::SystemRandom) -> (document:
    Option<Vec<u8>>) {
    let alg = match curve {
        Curve::P256 => &ring::signature::ECDSA_P256_SHA256_FIXED_SIGNING,
        Curve::P384 => &ring::signature::ECDSA_P384_SHA384_FIXED_SIGNING,
    };
    match ring::signature::EcdsaKeyPair::generate_pkcs8(alg, rng) {
        Ok(document) => Some(document.as_ref().to_vec()),
        Err(_) => None,
    }
}

/// `ring::signature::EcdsaKeyPair::from_pkcs8`, then the pair's public key.
/// A key that comes back is the public key that the document holds. Nothing
/// comes back where the document is rejected, or where the random number
/// generator that the constructor also draws from fails.
#[verifier::external_body]
pub(crate) fn ecdsa_public_from_pkcs8(
    curve: Curve,
    pkcs8: &[u8],
    rng: &ring::rand::SystemRandom,
) -> (public_key: Option<Vec<u8>>)
    ensures
        public_key matches Some(key) ==> ecdsa_public_key(curve, pkcs8@) == Some(key@),
{
    let alg = match curve {
        Curve::P256 => &ring::signature::ECDSA_P256_SHA256_FIXED_SIGNING,
        Curve::P384 => &ring::signature::ECDSA_P384_SHA384_FIXED_SIGNING,
    };
    match ring::signature::EcdsaKeyPair::from_pkcs8(alg, pkcs8, rng) {
        Ok(pair) => Some(pair.public_key().as_ref().to_vec()),
        Err(_) => None,
    }
}

/// `ring::signature::EcdsaKeyPair::from_pkcs8`, then `sign` on the message,
/// with the fixed-length algorithm of `curve`. A signature that comes back is
/// two scalars long, and the document was accepted as a key pair. The
/// signature depends on chance, so nothing more is claimed of it.
#[verifier::external_body]
pub(crate) fn ecdsa_sign_pkcs8(
    curve: Curve,
    pkcs8: &[u8],
    rng: &ring::rand::SystemRandom,
    message: &[u8],
) -> (signed: Result<Vec<u8>, SignFault>)
    ensures
        signed matches Ok(signature) ==> signature@.len() == curve.signature_len(),
{
    let alg = match curve {
        Curve::P256 => &ring::signature::ECDSA_P256_SHA256_FIXED_SIGNING,
        Curve::P384 => &ring::signature::ECDSA_P384_SHA384_FIXED_SIGNING,
    };
    let pair = match ring::signature::EcdsaKeyPair::from_pkcs8(alg, pkcs8, rng) {
        Ok(pair) => pair,
        Err(_) => return Err(SignFault::KeyRejected),
    };
    match pair.sign(rng, message) {
        Ok(signature) => Ok(signature.as_ref().to_vec()),
        Err(_) => Err(SignFault::SigningFailed),
    }
}

/// `ring::signature::UnparsedPublicKey::verify` with the fixed-length
/// verification algorithm of `curve`: whether the signature is accepted. A
/// malformed key or signature is not accepted.
#[verifier::external_body]
pub(crate) fn ecdsa_verify(curve: Curve, public_key: &[u8], message: &[u8], signature: &[u8]) -> (valid:
    bool)
    ensures
        valid == ecdsa_verifies(curve, public_key@, message@, signature@),
{
    let alg = match curve {
        Curve::P256 => &ring::signature::ECDSA_P256_SHA256_FIXED,
        Curve::P384 => &ring::signature::ECDSA_P384_SHA384_FIXED,
    };
    ring::signature::UnparsedPublicKey::new(alg, public_key).verify(message, signature).is_ok()
}

/// `rsa::RsaPrivateKey::new` with the operating system's random number
/// generator, then the key as a PKCS#8 document. The key depends on chance,
/// so nothing is claimed of it.
#[verifier::external_body]
pub(crate) fn rsa_generate_pkcs8(bits: usize) -> (document: Option<Vec<u8>>)
    requires
        bits == 2048 || bits == 3072 || bits == 4096,
{
    let key = match rsa::RsaPrivateKey::new(&mut rsa::rand_core::OsRng, bits) {
        Ok(key) => key,
        Err(_) => return None,
    };
    match key.to_pkcs8_der() {
        Ok(document) => Some(document.as_bytes().to_vec()),
        Err(_) => None,
    }
}

/// `ring::signature::RsaKeyPair::from_pkcs8`, then the pair's public key:
/// the public key that the document holds, or nothing where the document is
/// rejected.
#[verifier::external_body]
pub(crate) fn rsa_public_from_pkcs8(pkcs8: &[u8]) -> (public_key: Option<Vec<u8>>)
    ensures
        match public_key {
            Some(key) => rsa_public_key(pkcs8@) == Some(key@),
            None => rsa_public_key(pkcs8@) is None,
        },
{
    match ring::signature::RsaKeyPair::from_pkcs8(pkcs8) {
        Ok(pair) => Some(pair.public().as_ref().to_vec()),
        Err(_) => None,
    }
}

/// `ring::signature::RsaKeyPair::from_pkcs8`, then `sign` on the message with
/// the padding and hash of `scheme`, into a buffer as long as the modulus. A
/// signature that comes back was made with a key that the document holds.
/// With PSS padding the signature depends on chance, so nothing more is
/// claimed of it.
#[verifier::external_body]
pub(crate) fn rsa_sign_pkcs8(
    scheme: RsaScheme,
    pkcs8: &[u8],
    rng: &ring::rand::SystemRandom,
    message: &[u8],
) -> (signed: Result<Vec<u8>, SignFault>)
    ensures
        signed is Ok ==> rsa_public_key(pkcs8@) is Some,
{
    let alg: &'static dyn ring::signature::RsaEncoding = match scheme {
        RsaScheme::PssSha256 => &ring::signature::RSA_PSS_SHA256,
        RsaScheme::PssSha384 => &ring::signature::RSA_PSS_SHA384,
        RsaScheme::PssSha512 => &ring::signature::RSA_PSS_SHA512,
        RsaScheme::Pkcs1Sha256 => &ring::signature::RSA_PKCS1_SHA256,
        RsaScheme::Pkcs1Sha384 => &ring::signature::RSA_PKCS1_SHA384,
        RsaScheme::Pkcs1Sha512 => &ring::signature::RSA_PKCS1_SHA512,
    };
    let pair = ring::signature::RsaKeyPair::from_pkcs8(pkcs8).map_err(|_| SignFault::KeyRejected)?;
    let mut signature = vec![0u8; pair.public().modulus_len()];
    pair.sign(alg, rng, message, &mut signature).map_err(|_| SignFault::SigningFailed)?;
    Ok(signature)
}

/// `ring::signature::UnparsedPublicKey::verify` with the RSA verification
/// algorithm of `scheme`, for moduli of 2048 to 8192 bits: whether the
/// signature is accepted. A malformed key or signature is not accepted.
#[verifier::external_body]
pub(crate) fn rsa_verify(scheme: RsaScheme, public_key: &[u8], message: &[u8], signature: &[u8]) -> (valid:
    bool)
    ensures
        valid == rsa_verifies(scheme, public_key@, message@, signature@),
{
    let alg: &'static dyn ring::signature::VerificationAlgorithm = match scheme {
        RsaScheme::PssSha256 => &ring::signature::RSA_PSS_2048_8192_SHA256,
        RsaScheme::PssSha384 => &ring::signature::RSA_PSS_2048_8192_SHA384,
        RsaScheme::PssSha512 => &ring::signature::RSA_PSS_2048_8192_SHA512,
        RsaScheme::Pkcs1Sha256 => &ring::signature::RSA_PKCS1_2048_8192_SHA256,
        RsaScheme::Pkcs1Sha384 => &ring::signature::RSA_PKCS1_2048_8192_SHA384,
        RsaScheme::Pkcs1Sha512 => &ring::signature::RSA_PKCS1_2048_8192_SHA512,
    };
    ring::signature::UnparsedPublicKey::new(alg, public_key).verify(message, signature).is_ok()
}

/// `std::time::Instant::now`: the present moment on the monotonic clock.
#[verifier::external_body]
pub(crate) fn clock_now() -> (now: std::time::Instant) {
    std::time::Instant::now()
}

/// `std::time::Instant::elapsed`, in whole microseconds, cut to 64 bits: the
/// time since `start`. It depends on the clock, so nothing is claimed of it.
#[verifier::external_body]
pub(crate) fn clock_elapsed_micros(start: &std::time::Instant) -> (micros: u64) {
    start.elapsed().as_micros() as u64
}

/// `std::time::SystemTime::now` against the Unix epoch, in whole
/// milliseconds, or nothing where the system clock stands before the epoch.
#[verifier::external_body]
pub(crate) fn unix_millis() -> (millis: Option<u128>) {
    match std::time::SystemTime::now().duration_since(std::time::UNIX_EPOCH) {
        Ok(since) => Some(since.as_millis()),
        Err(_) => None,
    }
}

} // verus!
