//! Signing and verification: the choice of the primitive by key type and
//! signature scheme, and the result of a signing operation.

use crate::config::{KeyType, SigningAlgorithm};
use crate::crypto::keys::{curve_of, KeyPair};
use crate::crypto::primitives::{
    clock_elapsed_micros, clock_now, ecdsa_sign_pkcs8, ecdsa_verifies, ecdsa_verify,
    rsa_sign_pkcs8, rsa_verifies, rsa_verify, system_random, Curve, RsaScheme, SignFault,
};
use crate::error::{CryptoError, Error};
use crate::text::{join2, join3};
use vstd::prelude::*;

verus! {

/// The outcome of a signing operation. The processing time is never zero.
#[derive(Debug)]
pub struct SigningResult {
    pub signature: Vec<u8>,
    pub algorithm: SigningAlgorithm,
    pub processing_time_us: u64,
}

impl SigningResult {
    /// Whether the result reports a processing time of at least one
    /// microsecond.
    pub open spec fn well_formed(self) -> bool {
        self.processing_time_us >= 1
    }
}

/// The data to sign, the scheme to sign it with, and the key.
#[derive(Debug)]
pub struct SigningOperation {
    pub data: Vec<u8>,
    pub algorithm: SigningAlgorithm,
    pub key_pair: KeyPair,
}

/// The primitive that signs or verifies.
#[derive(Debug, Clone, Copy, PartialEq, Eq, Structural)]
pub enum Primitive {
    Ecdsa(Curve),
    Rsa(RsaScheme),
}

/// The duration that is reported for a measured duration: at least one
/// microsecond.
pub open spec fn floor_micros(measured: u64) -> u64 {
    if measured == 0 {
        1
    } else {
        measured
    }
}

/// The RSA scheme of a signature scheme, and nothing for an ECDSA scheme.
pub open spec fn rsa_scheme_of(algorithm: SigningAlgorithm) -> Option<RsaScheme> {
    match algorithm {
        SigningAlgorithm::RsaPssSha256 => Some(RsaScheme::PssSha256),
        SigningAlgorithm::RsaPssSha384 => Some(RsaScheme::PssSha384),
        SigningAlgorithm::RsaPssSha512 => Some(RsaScheme::PssSha512),
        SigningAlgorithm::RsaPkcs1v15Sha256 => Some(RsaScheme::Pkcs1Sha256),
        SigningAlgorithm::RsaPkcs1v15Sha384 => Some(RsaScheme::Pkcs1Sha384),
        SigningAlgorithm::RsaPkcs1v15Sha512 => Some(RsaScheme::Pkcs1Sha512),
        _ => None,
    }
}

/// The curve of an ECDSA scheme that can sign, and nothing for every other
/// scheme.
pub open spec fn scheme_curve(algorithm: SigningAlgorithm) -> Option<Curve> {
    match algorithm {
        SigningAlgorithm::EcdsaP256Sha256 => Some(Curve::P256),
        SigningAlgorithm::EcdsaP384Sha384 => Some(Curve::P384),
        _ => None,
    }
}

/// The primitive for a key type and a signature scheme. An RSA key signs
/// with each of the six RSA schemes. An elliptic-curve key signs with the
/// ECDSA scheme of its own curve, on the two curves that can sign. Every
/// other pair has no primitive.
pub open spec fn primitive_for(key_type: KeyType, algorithm: SigningAlgorithm) -> Option<
    Primitive,
> {
    if key_type.is_rsa() {
        match rsa_scheme_of(algorithm) {
            Some(scheme) => Some(Primitive::Rsa(scheme)),
            None => None,
        }
    } else {
        match (curve_of(key_type), scheme_curve(algorithm)) {
            (Some(of_key), Some(of_scheme)) => if of_key == of_scheme {
                Some(Primitive::Ecdsa(of_key))
            } else {
                None
            },
            _ => None,
        }
    }
}

/// The text that names why a key type and a signature scheme have no
/// primitive.
pub open spec fn unsupported_text(key_type: KeyType, algorithm: SigningAlgorithm) -> Seq<char> {
    if key_type.is_rsa() {
        algorithm.name() + " is not an RSA algorithm"@
    } else if !algorithm.is_ecdsa() {
        algorithm.name() + " is not an ECDSA algorithm"@
    } else if key_type == KeyType::EccP521 || algorithm == SigningAlgorithm::EcdsaP521Sha512 {
        "ECDSA P-521 not supported"@
    } else {
        algorithm.name() + " does not match key type "@ + key_type.name()
    }
}

/// What a signing operation gives for the outcome of its primitive, the
/// scheme, and the time it took.
pub open spec fn signing_outcome(
    outcome: Result<Vec<u8>, SignFault>,
    algorithm: SigningAlgorithm,
    elapsed_us: u64,
    made: Result<SigningResult, Error>,
) -> bool {
    match outcome {
        Ok(signature) => made matches Ok(result) && result.signature == signature
            && result.algorithm == algorithm && result.processing_time_us == floor_micros(
            elapsed_us,
        ),
        Err(SignFault::KeyRejected) => made matches Err(
            Error::Crypto(CryptoError::InvalidKeyFormat { reason }),
        ) && reason@ == "Invalid private key for "@ + algorithm.name(),
        Err(SignFault::SigningFailed) => made matches Err(
            Error::Crypto(CryptoError::SigningFailed { algorithm: name, reason }),
        ) && name@ == algorithm.name() && reason@ == "Signing operation failed"@,
    }
}

/// Whether `error` is one of the two errors of a primitive that signs with
/// the scheme `algorithm`: a private key that is not accepted, or a signing
/// operation that fails.
pub open spec fn is_primitive_failure(error: Error, algorithm: SigningAlgorithm) -> bool {
    ||| (error matches Error::Crypto(CryptoError::InvalidKeyFormat { reason }) && reason@
        == "Invalid private key for "@ + algorithm.name())
    ||| (error matches Error::Crypto(CryptoError::SigningFailed { algorithm: name, reason })
        && name@ == algorithm.name() && reason@ == "Signing operation failed"@)
}

/// Nothing signs or verifies on the 521-bit curve: neither a key of that
/// curve nor the scheme of that curve has a primitive.
pub proof fn lemma_p521_has_no_primitive(key_type: KeyType, algorithm: SigningAlgorithm)
    ensures
        primitive_for(KeyType::EccP521, algorithm) is None,
        primitive_for(key_type, SigningAlgorithm::EcdsaP521Sha512) is None,
{
}

/// A key and a scheme of different families, or of different curves, have
/// no primitive.
pub proof fn lemma_mismatch_has_no_primitive(key_type: KeyType, algorithm: SigningAlgorithm)
    ensures
        key_type.is_rsa() && algorithm.is_ecdsa() ==> primitive_for(key_type, algorithm) is None,
        key_type.is_ecc() && algorithm.is_rsa() ==> primitive_for(key_type, algorithm) is None,
        primitive_for(key_type, algorithm) matches Some(Primitive::Ecdsa(curve)) ==> curve_of(
            key_type,
        ) == Some(curve) && scheme_curve(algorithm) == Some(curve),
{
}

/// The primitive for a key type and a signature scheme, if there is one.
pub fn choose_primitive(key_type: KeyType, algorithm: SigningAlgorithm) -> (chosen: Option<
    Primitive,
>)
    ensures
        chosen == primitive_for(key_type, algorithm),
{
    match key_type {
        KeyType::Rsa2048 | KeyType::Rsa3072 | KeyType::Rsa4096 => match algorithm {
            SigningAlgorithm::RsaPssSha256 => Some(Primitive::Rsa(RsaScheme::PssSha256)),
            SigningAlgorithm::RsaPssSha384 => Some(Primitive::Rsa(RsaScheme::PssSha384)),
            SigningAlgorithm::RsaPssSha512 => Some(Primitive::Rsa(RsaScheme::PssSha512)),
            SigningAlgorithm::RsaPkcs1v15Sha256 => Some(Primitive::Rsa(RsaScheme::Pkcs1Sha256)),
            SigningAlgorithm::RsaPkcs1v15Sha384 => Some(Primitive::Rsa(RsaScheme::Pkcs1Sha384)),
            SigningAlgorithm::RsaPkcs1v15Sha512 => Some(Primitive::Rsa(RsaScheme::Pkcs1Sha512)),
            _ => None,
        },
        KeyType::EccP256 => match algorithm {
            SigningAlgorithm::EcdsaP256Sha256 => Some(Primitive::Ecdsa(Curve::P256)),
            _ => None,
        },
        KeyType::EccP384 => match algorithm {
            SigningAlgorithm::EcdsaP384Sha384 => Some(Primitive::Ecdsa(Curve::P384)),
            _ => None,
        },
        KeyType::EccP521 => None,
    }
}

/// The error for a key type and a signature scheme without a primitive.
pub fn unsupported(key_type: KeyType, algorithm: SigningAlgorithm) -> (error: Error)
    ensures
        error matches Error::Crypto(CryptoError::UnsupportedAlgorithm { algorithm: text })
            && text@ == unsupported_text(key_type, algorithm),
{
    let is_rsa_key = match key_type {
        KeyType::Rsa2048 | KeyType::Rsa3072 | KeyType::Rsa4096 => true,
        _ => false,
    };
    let is_ecdsa = match algorithm {
        SigningAlgorithm::EcdsaP256Sha256
        | SigningAlgorithm::EcdsaP384Sha384
        | SigningAlgorithm::EcdsaP521Sha512 => true,
        _ => false,
    };
    let text = if is_rsa_key {
        join2(algorithm.as_str(), " is not an RSA algorithm")
    } else if !is_ecdsa {
        join2(algorithm.as_str(), " is not an ECDSA algorithm")
    } else if key_type == KeyType::EccP521 || algorithm == SigningAlgorithm::EcdsaP521Sha512 {
        String::from_str("ECDSA P-521 not supported")
    } else {
        join3(algorithm.as_str(), " does not match key type ", key_type.as_str())
    };
    Error::Crypto(CryptoError::UnsupportedAlgorithm { algorithm: text })
}

/// The duration that is reported for a measured duration.
pub fn reported_micros(measured: u64) -> (reported: u64)
    ensures
        reported == floor_micros(measured),
        reported >= 1,
{
    if measured == 0 {
        1
    } else {
        measured
    }
}

/// The result of a signing operation, for the outcome of its primitive: the
/// signature with its scheme and the reported duration, or the error that
/// belongs to the fault.
pub fn signing_result(
    outcome: Result<Vec<u8>, SignFault>,
    algorithm: SigningAlgorithm,
    elapsed_us: u64,
) -> (made: Result<SigningResult, Error>)
    ensures
        signing_outcome(outcome, algorithm, elapsed_us, made),
{
    match outcome {
        Ok(signature) => Ok(
            SigningResult {
                signature,
                algorithm,
                processing_time_us: reported_micros(elapsed_us),
            },
        ),
        Err(SignFault::KeyRejected) => Err(
            Error::Crypto(
                CryptoError::InvalidKeyFormat {
                    reason: join2("Invalid private key for ", algorithm.as_str()),
                },
            ),
        ),
        Err(SignFault::SigningFailed) => Err(
            Error::Crypto(
                CryptoError::SigningFailed {
                    algorithm: String::from_str(algorithm.as_str()),
                    reason: String::from_str("Signing operation failed"),
                },
            ),
        ),
    }
}

/// Something that signs and verifies.
pub trait Signer {
    /// Signs the data of `operation` with its key and scheme. A key type and
    /// a scheme without a primitive are an unsupported algorithm. A result
    /// carries the scheme and a processing time of at least one microsecond.
    fn sign(&self, operation: SigningOperation) -> (made: Result<SigningResult, Error>)
        ensures
            primitive_for(operation.key_pair.key_type, operation.algorithm) is None ==> (
            made matches Err(Error::Crypto(CryptoError::UnsupportedAlgorithm { algorithm: text }))
                && text@ == unsupported_text(operation.key_pair.key_type, operation.algorithm)),
            made matches Ok(result) ==> result.algorithm == operation.algorithm
                && result.well_formed(),
    ;

    /// Says whether `signature` is a signature of `data` under the public key
    /// of `key_pair` with the scheme `algorithm`. A key type and a scheme
    /// without a primitive are an unsupported algorithm; nothing else is an
    /// error.
    fn verify(
        &self,
        data: &[u8],
        signature: &[u8],
        key_pair: &KeyPair,
        algorithm: SigningAlgorithm,
    ) -> (checked: Result<bool, Error>)
        ensures
            primitive_for(key_pair.key_type, algorithm) is None ==> (checked matches Err(
                Error::Crypto(CryptoError::UnsupportedAlgorithm { algorithm: text }),
            ) && text@ == unsupported_text(key_pair.key_type, algorithm)),
            primitive_for(key_pair.key_type, algorithm) is Some ==> checked is Ok,
    ;
}

/// The signer that is built on the outside primitives.
#[derive(Debug)]
pub struct RingSigner {
    rng: ring::rand::SystemRandom,
}

impl RingSigner {
    pub fn new() -> (out: Self) {
        RingSigner { rng: system_random() }
    }
}

impl Default for RingSigner {
    fn default() -> (out: Self) {
        RingSigner::new()
    }
}

impl SigningOperation {
    pub fn new(data: Vec<u8>, algorithm: SigningAlgorithm, key_pair: KeyPair) -> (out: Self)
        ensures
            out.data == data,
            out.algorithm == algorithm,
            out.key_pair == key_pair,
    {
        SigningOperation { data, algorithm, key_pair }
    }
}

impl Signer for RingSigner {
    /// A result on a curve is a signature of the fixed length of that curve.
    /// With a primitive, the only errors are a private key that is not
    /// accepted and a signing operation that fails.
    fn sign(&self, operation: SigningOperation) -> (made: Result<SigningResult, Error>)
        ensures
            made matches Ok(result) ==> (primitive_for(
                operation.key_pair.key_type,
                operation.algorithm,
            ) matches Some(Primitive::Ecdsa(curve)) ==> result.signature@.len()
                == curve.signature_len()),
            made matches Err(e) ==> (primitive_for(
                operation.key_pair.key_type,
                operation.algorithm,
            ) is Some ==> is_primitive_failure(e, operation.algorithm)),
    {
        let start = clock_now();
        let algorithm = operation.algorithm;
        let outcome = match choose_primitive(operation.key_pair.key_type, algorithm) {
            None => {
                return Err(unsupported(operation.key_pair.key_type, algorithm));
            },
            Some(Primitive::Ecdsa(curve)) => ecdsa_sign_pkcs8(
                curve,
                operation.key_pair.private_key.as_slice(),
                &self.rng,
                operation.data.as_slice(),
            ),
            Some(Primitive::Rsa(scheme)) => rsa_sign_pkcs8(
                scheme,
                operation.key_pair.private_key.as_slice(),
                &self.rng,
                operation.data.as_slice(),
            ),
        };
        let elapsed = clock_elapsed_micros(&start);
        signing_result(outcome, algorithm, elapsed)
    }

    /// The answer is that of the primitive on the public key of the key
    /// pair.
    fn verify(
        &self,
        data: &[u8],
        signature: &[u8],
        key_pair: &KeyPair,
        algorithm: SigningAlgorithm,
    ) -> (checked: Result<bool, Error>)
        ensures
            match primitive_for(key_pair.key_type, algorithm) {
                None => checked is Err,
                Some(Primitive::Ecdsa(curve)) => checked matches Ok(valid) && valid
                    == ecdsa_verifies(curve, key_pair.public_key@, data@, signature@),
                Some(Primitive::Rsa(scheme)) => checked matches Ok(valid) && valid == rsa_verifies(
                    scheme,
                    key_pair.public_key@,
                    data@,
                    signature@,
                ),
            },
    {
        match choose_primitive(key_pair.key_type, algorithm) {
            None => Err(unsupported(key_pair.key_type, algorithm)),
            Some(Primitive::Ecdsa(curve)) => Ok(
                ecdsa_verify(curve, key_pair.public_key.as_slice(), data, signature),
            ),
            Some(Primitive::Rsa(scheme)) => Ok(
                rsa_verify(scheme, key_pair.public_key.as_slice(), data, signature),
            ),
        }
    }
}

} // verus!
