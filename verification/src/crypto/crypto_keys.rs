//! A fixed set of keys: one RSA key where one could be generated, and one
//! key on each of the two curves that can sign.

use crate::config::{KeyGenerationConfig, KeyLoadingConfig, KeyType, SigningAlgorithm};
use crate::crypto::keys::{keys_match, KeyManager, KeyPair, KeyPairView};
use crate::crypto::primitives::Curve;
use crate::crypto::signing::{
    is_primitive_failure, primitive_for, Primitive, RingSigner, Signer, SigningOperation,
};
use crate::error::{CryptoError, Error};
use crate::text::copy_bytes;
use vstd::prelude::*;

verus! {

/// The fixed set of keys with the signer that signs with them.
#[derive(Debug)]
pub struct CryptoKeys {
    rsa_key_pair: Option<KeyPair>,
    ecc_p256_key_pair: KeyPair,
    ecc_p384_key_pair: KeyPair,
    signer: RingSigner,
}

/// Whether `error` says that there is no RSA key.
pub open spec fn is_no_rsa_key(error: Error) -> bool {
    error matches Error::Crypto(CryptoError::KeyGeneration { reason }) && reason@
        == "RSA key pair not available"@
}

fn no_rsa_key() -> (error: Error)
    ensures
        is_no_rsa_key(error),
{
    Error::Crypto(
        CryptoError::KeyGeneration { reason: String::from_str("RSA key pair not available") },
    )
}

impl CryptoKeys {
    #[verifier::type_invariant]
    spec fn well_formed(self) -> bool {
        &&& self.ecc_p256_key_pair.key_type == KeyType::EccP256
        &&& self.ecc_p384_key_pair.key_type == KeyType::EccP384
        &&& keys_match(self.ecc_p256_key_pair@)
        &&& keys_match(self.ecc_p384_key_pair@)
        &&& self.rsa_key_pair matches Some(pair) ==> pair.key_type == KeyType::Rsa2048
            && keys_match(pair@)
    }

    /// The RSA key, where there is one.
    pub closed spec fn rsa(&self) -> Option<KeyPairView> {
        match self.rsa_key_pair {
            Some(pair) => Some(pair@),
            None => None,
        }
    }

    /// The key on the 256-bit curve.
    pub closed spec fn ecc_p256(&self) -> KeyPairView {
        self.ecc_p256_key_pair@
    }

    /// The key on the 384-bit curve.
    pub closed spec fn ecc_p384(&self) -> KeyPairView {
        self.ecc_p384_key_pair@
    }

    /// The key of the set for a key type, where it has one: the RSA key for
    /// the 2048-bit RSA type, and the key of the curve for the two curves.
    pub open spec fn key_of(&self, key_type: KeyType) -> Option<KeyPairView> {
        match key_type {
            KeyType::Rsa2048 => self.rsa(),
            KeyType::EccP256 => Some(self.ecc_p256()),
            KeyType::EccP384 => Some(self.ecc_p384()),
            _ => None,
        }
    }

    /// Generates the set. An RSA key that cannot be generated is left out;
    /// a key on a curve that cannot be generated is an error.
    pub fn generate() -> (made: Result<Self, Error>)
        ensures
            made matches Err(e) ==> e matches Error::Crypto(CryptoError::KeyGeneration { .. }),
    {
        let keys = KeyManager::new(
            KeyGenerationConfig {
                generate_at_startup: false,
                key_types: Vec::new(),
                storage_dir: None,
            },
            KeyLoadingConfig { key_dir: None, key_files: Vec::new() },
        );
        let rsa_key_pair = match keys.generate_rsa_key(KeyType::Rsa2048) {
            Ok(pair) => Some(pair),
            Err(_) => None,
        };
        let ecc_p256_key_pair = match keys.generate_ecc_key(KeyType::EccP256) {
            Ok(pair) => pair,
            Err(e) => {
                return Err(e);
            },
        };
        let ecc_p384_key_pair = match keys.generate_ecc_key(KeyType::EccP384) {
            Ok(pair) => pair,
            Err(e) => {
                return Err(e);
            },
        };
        Ok(CryptoKeys { rsa_key_pair, ecc_p256_key_pair, ecc_p384_key_pair, signer: RingSigner::new() })
    }

    /// The public key of the RSA key, the one that its private key holds, or
    /// an error where there is no RSA key.
    pub fn get_rsa_public_key_der(&self) -> (key: Result<Vec<u8>, Error>)
        ensures
            match self.rsa() {
                Some(pair) => key matches Ok(bytes) && bytes@ == pair.public_key
                    && pair.key_type == KeyType::Rsa2048 && keys_match(pair),
                None => key matches Err(e) && is_no_rsa_key(e),
            },
    {
        proof {
            use_type_invariant(self);
        }
        match &self.rsa_key_pair {
            Some(pair) => Ok(copy_bytes(pair.public_key.as_slice())),
            None => Err(no_rsa_key()),
        }
    }

    /// The public key of the key on the 256-bit curve: the one that its
    /// private key holds.
    pub fn get_ecc_p256_public_key_der(&self) -> (key: Result<Vec<u8>, Error>)
        ensures
            key matches Ok(bytes) && bytes@ == self.ecc_p256().public_key,
            self.ecc_p256().key_type == KeyType::EccP256,
            keys_match(self.ecc_p256()),
    {
        proof {
            use_type_invariant(self);
        }
        Ok(copy_bytes(self.ecc_p256_key_pair.public_key.as_slice()))
    }

    /// The public key of the key on the 384-bit curve: the one that its
    /// private key holds.
    pub fn get_ecc_p384_public_key_der(&self) -> (key: Result<Vec<u8>, Error>)
        ensures
            key matches Ok(bytes) && bytes@ == self.ecc_p384().public_key,
            self.ecc_p384().key_type == KeyType::EccP384,
            keys_match(self.ecc_p384()),
    {
        proof {
            use_type_invariant(self);
        }
        Ok(copy_bytes(self.ecc_p384_key_pair.public_key.as_slice()))
    }

    /// Signs `data` with the key of the set for `key_type` and the scheme
    /// `algorithm`. A key type without a key in the set is an error: no RSA
    /// key where there is none, an unsupported algorithm otherwise. With a
    /// key the signer decides: a pair of key type and scheme without a
    /// primitive is an unsupported algorithm; with a primitive a signature on
    /// a curve has the fixed length of the curve, and the only errors are
    /// the two of the primitive.
    pub fn sign(&self, key_type: KeyType, algorithm: SigningAlgorithm, data: &[u8]) -> (signed:
        Result<Vec<u8>, Error>)
        ensures
            self.key_of(key_type) is None ==> signed is Err,
            key_type == KeyType::Rsa2048 && self.rsa() is None ==> (signed matches Err(e)
                && is_no_rsa_key(e)),
            primitive_for(key_type, algorithm) is None ==> signed is Err,
            signed matches Ok(signature) ==> (primitive_for(key_type, algorithm) matches Some(
                Primitive::Ecdsa(curve),
            ) ==> signature@.len() == curve.signature_len()),
            signed matches Err(e) ==> (self.key_of(key_type) is Some && primitive_for(
                key_type,
                algorithm,
            ) is Some ==> is_primitive_failure(e, algorithm)),
    {
        proof {
            use_type_invariant(self);
        }
        let key_pair = match key_type {
            KeyType::Rsa2048 => match &self.rsa_key_pair {
                Some(pair) => pair.clone(),
                None => {
                    return Err(no_rsa_key());
                },
            },
            KeyType::EccP256 => self.ecc_p256_key_pair.clone(),
            KeyType::EccP384 => self.ecc_p384_key_pair.clone(),
            _ => {
                return Err(crate::crypto::signing::unsupported(key_type, algorithm));
            },
        };
        let operation = SigningOperation { data: copy_bytes(data), algorithm, key_pair };
        match self.signer.sign(operation) {
            Ok(result) => Ok(result.signature),
            Err(e) => Err(e),
        }
    }

    /// Signs `data` with the RSA key, with PKCS#1 v1.5 padding and SHA-256.
    pub fn sign_rsa_pkcs1_sha256(&self, data: &[u8]) -> (signed: Result<Vec<u8>, Error>)
        ensures
            self.rsa() is None ==> (signed matches Err(e) && is_no_rsa_key(e)),
    {
        self.sign(KeyType::Rsa2048, SigningAlgorithm::RsaPkcs1v15Sha256, data)
    }

    /// Signs `data` with the RSA key, with PSS padding and SHA-256.
    pub fn sign_rsa_pss_sha256(&self, data: &[u8]) -> (signed: Result<Vec<u8>, Error>)
        ensures
            self.rsa() is None ==> (signed matches Err(e) && is_no_rsa_key(e)),
    {
        self.sign(KeyType::Rsa2048, SigningAlgorithm::RsaPssSha256, data)
    }

    /// Signs `data` with the key on the 256-bit curve and SHA-256: a
    /// signature of 64 bytes. The key is always there and the scheme is that
    /// of its curve, so the only errors are the two of the primitive.
    pub fn sign_ecdsa_p256_sha256(&self, data: &[u8]) -> (signed: Result<Vec<u8>, Error>)
        ensures
            signed matches Ok(signature) ==> signature@.len() == Curve::P256.signature_len(),
            signed matches Err(e) ==> is_primitive_failure(e, SigningAlgorithm::EcdsaP256Sha256),
    {
        self.sign(KeyType::EccP256, SigningAlgorithm::EcdsaP256Sha256, data)
    }

    /// Signs `data` with the key on the 384-bit curve and SHA-384: a
    /// signature of 96 bytes. The key is always there and the scheme is that
    /// of its curve, so the only errors are the two of the primitive.
    pub fn sign_ecdsa_p384_sha384(&self, data: &[u8]) -> (signed: Result<Vec<u8>, Error>)
        ensures
            signed matches Ok(signature) ==> signature@.len() == Curve::P384.signature_len(),
            signed matches Err(e) ==> is_primitive_failure(e, SigningAlgorithm::EcdsaP384Sha384),
    {
        self.sign(KeyType::EccP384, SigningAlgorithm::EcdsaP384Sha384, data)
    }
}

} // verus!
