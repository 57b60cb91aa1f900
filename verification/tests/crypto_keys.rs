use grpc_performance_rs::config::{
    KeyFileConfig, KeyGenerationConfig, KeyLoadingConfig, KeyType, SigningAlgorithm,
};
use grpc_performance_rs::crypto::keys::{KeyManager, KeyMaterial, KeyPair};
use grpc_performance_rs::crypto::signing::{
    choose_primitive, reported_micros, RingSigner, Signer, SigningOperation,
};
use grpc_performance_rs::error::{CryptoError, Error};
use grpc_performance_rs::CryptoKeys;

fn manager(generate: bool, key_types: Vec<KeyType>) -> KeyManager {
    KeyManager::new(
        KeyGenerationConfig { generate_at_startup: generate, key_types, storage_dir: None },
        KeyLoadingConfig { key_dir: None, key_files: Vec::new() },
    )
}

fn pair(id: &str, key_type: KeyType, marker: u8) -> KeyPair {
    KeyPair::new(id.to_string(), key_type, vec![marker; 4], vec![marker; 2])
}

#[test]
fn test_ecdsa_signing_and_verification() {
    let signer = RingSigner::new();

    let rng = ring::rand::SystemRandom::new();
    let key_pair_doc = ring::signature::EcdsaKeyPair::generate_pkcs8(
        &ring::signature::ECDSA_P256_SHA256_FIXED_SIGNING,
        &rng,
    )
    .unwrap();
    let ecc_key_pair = ring::signature::EcdsaKeyPair::from_pkcs8(
        &ring::signature::ECDSA_P256_SHA256_FIXED_SIGNING,
        key_pair_doc.as_ref(),
        &rng,
    )
    .unwrap();
    let public_key = ring::signature::KeyPair::public_key(&ecc_key_pair).as_ref().to_vec();

    let key_pair = KeyPair::new(
        "test_ecc".to_string(),
        KeyType::EccP256,
        key_pair_doc.as_ref().to_vec(),
        public_key,
    );

    let test_data = b"Hello, World!";
    let operation =
        SigningOperation::new(test_data.to_vec(), SigningAlgorithm::EcdsaP256Sha256, key_pair.clone());

    let result = signer.sign(operation).unwrap();
    assert!(!result.signature.is_empty());
    assert!(result.processing_time_us > 0);

    let is_valid = signer
        .verify(test_data, &result.signature, &key_pair, SigningAlgorithm::EcdsaP256Sha256)
        .unwrap();
    assert!(is_valid);
}

#[test]
fn generated_p256_key_signs_and_verifies_and_rejects_changes() {
    let keys = manager(false, vec![]);
    let key = keys.generate_ecc_key(KeyType::EccP256).unwrap();
    assert_eq!(key.key_id, "ecc_EccP256");
    assert_eq!(key.key_type, KeyType::EccP256);
    assert_eq!(key.public_key.len(), 65);
    let signer = RingSigner::new();
    let data = b"hello".to_vec();
    let signed = signer
        .sign(SigningOperation::new(data.clone(), SigningAlgorithm::EcdsaP256Sha256, key.clone()))
        .unwrap();
    assert_eq!(signed.signature.len(), 64);
    assert_eq!(signed.algorithm, SigningAlgorithm::EcdsaP256Sha256);
    assert!(signed.processing_time_us >= 1);
    assert_eq!(
        signer.verify(&data, &signed.signature, &key, SigningAlgorithm::EcdsaP256Sha256).unwrap(),
        true
    );
    for i in 0..data.len() {
        let mut other = data.clone();
        other[i] ^= 1;
        assert_eq!(
            signer
                .verify(&other, &signed.signature, &key, SigningAlgorithm::EcdsaP256Sha256)
                .unwrap(),
            false
        );
    }
    for i in 0..signed.signature.len() {
        let mut other = signed.signature.clone();
        other[i] ^= 1;
        assert_eq!(
            signer.verify(&data, &other, &key, SigningAlgorithm::EcdsaP256Sha256).unwrap(),
            false
        );
    }
    assert_eq!(
        signer.verify(&data, &[], &key, SigningAlgorithm::EcdsaP256Sha256).unwrap(),
        false
    );
}

#[test]
fn generated_p384_key_signs_with_96_bytes() {
    let keys = manager(false, vec![]);
    let key = keys.generate_ecc_key(KeyType::EccP384).unwrap();
    assert_eq!(key.key_id, "ecc_EccP384");
    let signer = RingSigner::new();
    let signed = signer
        .sign(SigningOperation::new(b"abc".to_vec(), SigningAlgorithm::EcdsaP384Sha384, key.clone()))
        .unwrap();
    assert_eq!(signed.signature.len(), 96);
    assert!(signer
        .verify(b"abc", &signed.signature, &key, SigningAlgorithm::EcdsaP384Sha384)
        .unwrap());
}

#[test]
fn derived_public_key_is_the_generated_one() {
    let keys = manager(false, vec![]);
    let key = keys.generate_ecc_key(KeyType::EccP256).unwrap();
    let derived = keys.derive_public_key(&key.private_key, KeyType::EccP256).unwrap();
    assert_eq!(derived, key.public_key);
    assert_ne!(derived, key.private_key);
    let loaded =
        keys.load_key("from-file".to_string(), KeyType::EccP256, key.private_key.clone(), None).unwrap();
    assert_eq!(loaded.public_key, key.public_key);
    assert_eq!(loaded.key_id, "from-file");
}

#[test]
fn derivation_errors_by_key_type() {
    let keys = manager(false, vec![]);
    let key = keys.generate_ecc_key(KeyType::EccP256).unwrap();
    for key_type in [KeyType::Rsa2048, KeyType::Rsa3072, KeyType::Rsa4096, KeyType::EccP521] {
        let err = keys.derive_public_key(&key.private_key, key_type).unwrap_err();
        assert!(matches!(err, Error::Crypto(CryptoError::UnsupportedAlgorithm { .. })));
    }
    let err = keys.derive_public_key(&key.private_key, KeyType::EccP384).unwrap_err();
    assert!(matches!(err, Error::Crypto(CryptoError::InvalidKeyFormat { .. })));
    assert_eq!(
        err.to_string(),
        "Cryptographic error: Invalid key format: Invalid private key format for EccP384"
    );
    let err = keys.derive_public_key(&[1, 2, 3], KeyType::EccP256).unwrap_err();
    assert!(matches!(err, Error::Crypto(CryptoError::InvalidKeyFormat { .. })));
}

#[test]
fn generation_of_unsupported_types_fails() {
    let keys = manager(false, vec![]);
    let err = keys.generate_ecc_key(KeyType::EccP521).unwrap_err();
    assert_eq!(
        err.to_string(),
        "Cryptographic error: Unsupported algorithm: EccP521 - P-521 not supported"
    );
    assert!(keys.generate_ecc_key(KeyType::Rsa2048).is_err());
    let err = keys.generate_rsa_key(KeyType::EccP256).unwrap_err();
    assert_eq!(err.to_string(), "Cryptographic error: Unsupported algorithm: EccP256");
}

#[test]
fn initialize_passes_over_p521() {
    let mut keys = manager(true, vec![KeyType::EccP521]);
    assert!(keys.initialize(Vec::new()).is_ok());
    assert_eq!(keys.key_count(), 0);
    assert!(keys.list_keys().is_empty());

    let mut keys = manager(true, vec![KeyType::EccP521, KeyType::EccP256, KeyType::EccP384]);
    assert!(keys.initialize(Vec::new()).is_ok());
    assert_eq!(keys.list_keys(), vec!["ecc_EccP256".to_string(), "ecc_EccP384".to_string()]);
    assert!(keys.get_key("ecc_EccP521").is_none());
    assert_eq!(keys.get_key("ecc_EccP256").unwrap().key_type, KeyType::EccP256);
}

#[test]
fn signing_with_p521_is_unsupported() {
    let signer = RingSigner::new();
    let key = pair("k", KeyType::EccP521, 1);
    let err = signer
        .sign(SigningOperation::new(b"x".to_vec(), SigningAlgorithm::EcdsaP521Sha512, key.clone()))
        .unwrap_err();
    assert_eq!(
        err.to_string(),
        "Cryptographic error: Unsupported algorithm: ECDSA P-521 not supported"
    );
    let err = signer.verify(b"x", b"y", &key, SigningAlgorithm::EcdsaP521Sha512).unwrap_err();
    assert!(matches!(err, Error::Crypto(CryptoError::UnsupportedAlgorithm { .. })));
    let p256 = pair("k", KeyType::EccP256, 1);
    let err = signer
        .sign(SigningOperation::new(b"x".to_vec(), SigningAlgorithm::EcdsaP521Sha512, p256))
        .unwrap_err();
    assert!(matches!(err, Error::Crypto(CryptoError::UnsupportedAlgorithm { .. })));
}

#[test]
fn mismatched_key_and_scheme_are_unsupported() {
    let signer = RingSigner::new();
    let cases = [
        (KeyType::EccP256, SigningAlgorithm::EcdsaP384Sha384, "EcdsaP384Sha384 does not match key type EccP256"),
        (KeyType::EccP384, SigningAlgorithm::EcdsaP256Sha256, "EcdsaP256Sha256 does not match key type EccP384"),
        (KeyType::EccP256, SigningAlgorithm::RsaPssSha256, "RsaPssSha256 is not an ECDSA algorithm"),
        (KeyType::Rsa2048, SigningAlgorithm::EcdsaP256Sha256, "EcdsaP256Sha256 is not an RSA algorithm"),
    ];
    for (key_type, algorithm, text) in cases {
        assert_eq!(choose_primitive(key_type, algorithm), None);
        let err = signer
            .sign(SigningOperation::new(b"x".to_vec(), algorithm, pair("k", key_type, 1)))
            .unwrap_err();
        assert_eq!(err.to_string(), format!("Cryptographic error: Unsupported algorithm: {}", text));
    }
}

#[test]
fn signing_with_a_malformed_key_is_an_invalid_key_format() {
    let signer = RingSigner::new();
    let err = signer
        .sign(SigningOperation::new(
            b"x".to_vec(),
            SigningAlgorithm::EcdsaP256Sha256,
            pair("k", KeyType::EccP256, 7),
        ))
        .unwrap_err();
    assert_eq!(
        err.to_string(),
        "Cryptographic error: Invalid key format: Invalid private key for EcdsaP256Sha256"
    );
    let err = signer
        .sign(SigningOperation::new(
            b"x".to_vec(),
            SigningAlgorithm::RsaPssSha256,
            pair("k", KeyType::Rsa2048, 7),
        ))
        .unwrap_err();
    assert!(matches!(err, Error::Crypto(CryptoError::InvalidKeyFormat { .. })));
}

#[test]
fn reported_time_is_never_zero() {
    assert_eq!(reported_micros(0), 1);
    assert_eq!(reported_micros(1), 1);
    assert_eq!(reported_micros(17), 17);
    assert_eq!(reported_micros(u64::MAX), u64::MAX);
}

#[test]
fn key_pair_properties() {
    let sizes = [
        (KeyType::Rsa2048, 2048, true),
        (KeyType::Rsa3072, 3072, true),
        (KeyType::Rsa4096, 4096, true),
        (KeyType::EccP256, 256, false),
        (KeyType::EccP384, 384, false),
        (KeyType::EccP521, 521, false),
    ];
    for (key_type, bits, rsa) in sizes {
        let key = pair("k", key_type, 0);
        assert_eq!(key.key_size_bits(), bits);
        assert_eq!(key.is_rsa(), rsa);
        assert_eq!(key.is_ecc(), !rsa);
    }
}

#[test]
fn key_manager_adds_replaces_finds_and_deletes() {
    let mut keys = manager(false, vec![]);
    assert_eq!(keys.key_count(), 0);
    assert!(keys.get_key("a").is_none());
    keys.add_key(pair("a", KeyType::EccP256, 1));
    keys.add_key(pair("b", KeyType::Rsa2048, 2));
    keys.add_key(pair("c", KeyType::EccP256, 3));
    assert_eq!(keys.key_count(), 3);
    assert_eq!(keys.list_keys(), vec!["a".to_string(), "b".to_string(), "c".to_string()]);
    assert_eq!(keys.get_key("b").unwrap().private_key, vec![2; 4]);
    assert_eq!(keys.get_key_by_type(KeyType::EccP256).unwrap().key_id, "a");
    assert_eq!(keys.get_key_by_type(KeyType::Rsa2048).unwrap().key_id, "b");
    assert!(keys.get_key_by_type(KeyType::EccP384).is_none());

    keys.add_key(pair("a", KeyType::EccP384, 9));
    assert_eq!(keys.key_count(), 3);
    assert_eq!(keys.get_key("a").unwrap().key_type, KeyType::EccP384);
    assert_eq!(keys.get_key("a").unwrap().private_key, vec![9; 4]);
    assert_eq!(keys.get_key_by_type(KeyType::EccP256).unwrap().key_id, "c");

    assert!(keys.delete_key("b"));
    assert!(!keys.delete_key("b"));
    assert!(!keys.delete_key("zzz"));
    assert_eq!(keys.list_keys(), vec!["a".to_string(), "c".to_string()]);
    assert!(keys.get_key("b").is_none());
    assert_eq!(keys.get_key("c").unwrap().public_key, vec![3; 2]);
}

#[test]
fn loading_keeps_given_public_keys_and_stops_at_the_first_error() {
    let mut keys = manager(false, vec![]);
    let files = vec![
        KeyMaterial {
            key_id: "one".to_string(),
            key_type: KeyType::Rsa2048,
            private_key: vec![1],
            public_key: Some(vec![2]),
        },
        KeyMaterial {
            key_id: "two".to_string(),
            key_type: KeyType::EccP521,
            private_key: vec![3],
            public_key: Some(vec![4]),
        },
    ];
    assert!(keys.initialize(files).is_ok());
    assert_eq!(keys.list_keys(), vec!["one".to_string(), "two".to_string()]);
    assert_eq!(keys.get_key("one").unwrap().public_key, vec![2]);

    let mut keys = manager(true, vec![KeyType::EccP256]);
    let files = vec![
        KeyMaterial {
            key_id: "first".to_string(),
            key_type: KeyType::EccP256,
            private_key: vec![1],
            public_key: Some(vec![2]),
        },
        KeyMaterial {
            key_id: "rsa-without-public".to_string(),
            key_type: KeyType::Rsa2048,
            private_key: vec![3],
            public_key: None,
        },
        KeyMaterial {
            key_id: "never".to_string(),
            key_type: KeyType::EccP256,
            private_key: vec![1],
            public_key: Some(vec![2]),
        },
    ];
    let err = keys.initialize(files).unwrap_err();
    assert!(matches!(err, Error::Crypto(CryptoError::UnsupportedAlgorithm { .. })));
    assert_eq!(keys.list_keys(), vec!["first".to_string()]);
}

#[test]
fn rsa_generated_key_signs_and_verifies() {
    let keys = manager(false, vec![]);
    let key = keys.generate_rsa_key(KeyType::Rsa2048).unwrap();
    assert_eq!(key.key_id, "rsa_2048");
    assert_eq!(key.key_type, KeyType::Rsa2048);
    assert_ne!(key.public_key, key.private_key);
    assert!(key.public_key.len() > 256 && key.public_key.len() < key.private_key.len());
    let signer = RingSigner::new();
    for algorithm in [SigningAlgorithm::RsaPkcs1v15Sha256, SigningAlgorithm::RsaPssSha384] {
        let signed = signer
            .sign(SigningOperation::new(b"hello".to_vec(), algorithm, key.clone()))
            .unwrap();
        assert_eq!(signed.signature.len(), 256);
        assert!(signer.verify(b"hello", &signed.signature, &key, algorithm).unwrap());
        assert!(!signer.verify(b"hellp", &signed.signature, &key, algorithm).unwrap());
    }
    let signed = signer
        .sign(SigningOperation::new(b"hello".to_vec(), SigningAlgorithm::RsaPssSha256, key.clone()))
        .unwrap();
    assert!(!signer
        .verify(b"hello", &signed.signature, &key, SigningAlgorithm::RsaPkcs1v15Sha256)
        .unwrap());
}

#[test]
fn fixed_key_set_signs_with_each_key() {
    let keys = CryptoKeys::generate().unwrap();
    let signer = RingSigner::new();
    let data = b"test data for signing operations";

    let p256 = KeyPair::new(
        "p256".to_string(),
        KeyType::EccP256,
        Vec::new(),
        keys.get_ecc_p256_public_key_der().unwrap(),
    );
    let signature = keys.sign_ecdsa_p256_sha256(data).unwrap();
    assert_eq!(signature.len(), 64);
    assert!(signer.verify(data, &signature, &p256, SigningAlgorithm::EcdsaP256Sha256).unwrap());

    let p384 = KeyPair::new(
        "p384".to_string(),
        KeyType::EccP384,
        Vec::new(),
        keys.get_ecc_p384_public_key_der().unwrap(),
    );
    let signature = keys.sign_ecdsa_p384_sha384(data).unwrap();
    assert_eq!(signature.len(), 96);
    assert!(signer.verify(data, &signature, &p384, SigningAlgorithm::EcdsaP384Sha384).unwrap());
    assert!(!signer.verify(data, &signature, &p256, SigningAlgorithm::EcdsaP256Sha256).unwrap());

    let rsa = KeyPair::new(
        "rsa".to_string(),
        KeyType::Rsa2048,
        Vec::new(),
        keys.get_rsa_public_key_der().unwrap(),
    );
    let pkcs1 = keys.sign_rsa_pkcs1_sha256(data).unwrap();
    assert_eq!(pkcs1.len(), 256);
    assert!(signer.verify(data, &pkcs1, &rsa, SigningAlgorithm::RsaPkcs1v15Sha256).unwrap());
    let pss = keys.sign_rsa_pss_sha256(data).unwrap();
    assert!(signer.verify(data, &pss, &rsa, SigningAlgorithm::RsaPssSha256).unwrap());
    assert!(!signer.verify(data, &pss, &rsa, SigningAlgorithm::RsaPkcs1v15Sha256).unwrap());

    assert!(keys.sign(KeyType::EccP521, SigningAlgorithm::EcdsaP521Sha512, data).is_err());
    assert!(keys.sign(KeyType::Rsa4096, SigningAlgorithm::RsaPssSha256, data).is_err());
    assert!(keys.sign(KeyType::EccP256, SigningAlgorithm::EcdsaP384Sha384, data).is_err());
    assert_eq!(
        keys.sign(KeyType::EccP256, SigningAlgorithm::EcdsaP256Sha256, data).unwrap().len(),
        64
    );
}

#[test]
fn manager_keeps_its_loading_configuration() {
    let file = KeyFileConfig {
        key_id: "from-file".to_string(),
        key_type: KeyType::EccP384,
        private_key_path: "keys/p384.der".to_string(),
        public_key_path: None,
    };
    let mut keys = KeyManager::new(
        KeyGenerationConfig { generate_at_startup: false, key_types: vec![], storage_dir: None },
        KeyLoadingConfig { key_dir: Some("keys".to_string()), key_files: vec![file] },
    );
    keys.add_key(pair("a", KeyType::EccP256, 1));
    assert!(keys.delete_key("a"));
    let loading = keys.loading_config();
    assert_eq!(loading.key_dir.as_deref(), Some("keys"));
    assert_eq!(loading.key_files.len(), 1);
    assert_eq!(loading.key_files[0].key_id, "from-file");
    assert_eq!(loading.key_files[0].key_type, KeyType::EccP384);
    assert_eq!(loading.key_files[0].private_key_path, "keys/p384.der");
    assert_eq!(loading.key_files[0].public_key_path, None);
}
