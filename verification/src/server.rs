//! The decisions of the server: what a request is answered with, and when
//! connections are accepted and the server stops. The caller binds, accepts
//! and serves; this module holds the keys and says what each answer is.

use crate::client::{convert_key_type, wire_algorithm, wire_key_type, StatusCode};
use crate::config::{
    KeyGenerationConfig, KeyType, PerformanceConfig, ServerConfig, SigningAlgorithm,
    TransportType,
};
use crate::crypto::keys::{
    all_p521, all_with_public_key, grown_by_generation, keys_match, loaded_map, KeyManager,
    KeyMaterial, KeyPair, KeyPairView,
};
use crate::crypto::primitives::{clock_elapsed_micros, clock_now, ecdsa_verifies, rsa_verifies};
use crate::crypto::signing::{
    primitive_for, Primitive, RingSigner, Signer, SigningOperation, SigningResult,
};
use crate::error::{Error, NetworkError};
use crate::proto::{
    DeleteKeyRequest, DeleteKeyResponse, ErrorCode, GenerateKeyRequest, GenerateKeyResponse,
    HealthCheckRequest, HealthCheckResponse, KeyInfo, ListKeysRequest, ListKeysResponse,
    ServingStatus, SignRequest, SignResponse, VerifyRequest, VerifyResponse, MAX_DATA_LEN,
};
use crate::text::{
    chars_of, copy_bytes, decimal_digits, decimal_string, join2, join3, parse_unsigned,
    read_unsigned, same_text,
};
use crate::transport::{parse_socket, SocketAddress, TransportConfig};
use vstd::prelude::*;

verus! {

/// A request that is refused as a fault of the RPC layer, not answered.
#[derive(Debug)]
pub struct RpcFault {
    pub code: StatusCode,
    pub message: String,
}

/// The signature scheme for a scheme of the wire schema, and nothing for the
/// unspecified scheme.
pub open spec fn scheme_of_wire(wire: crate::proto::SigningAlgorithm) -> Option<SigningAlgorithm> {
    match wire {
        crate::proto::SigningAlgorithm::Unspecified => None,
        crate::proto::SigningAlgorithm::RsaPssSha256 => Some(SigningAlgorithm::RsaPssSha256),
        crate::proto::SigningAlgorithm::RsaPssSha384 => Some(SigningAlgorithm::RsaPssSha384),
        crate::proto::SigningAlgorithm::RsaPssSha512 => Some(SigningAlgorithm::RsaPssSha512),
        crate::proto::SigningAlgorithm::RsaPkcs1Sha256 => Some(SigningAlgorithm::RsaPkcs1v15Sha256),
        crate::proto::SigningAlgorithm::RsaPkcs1Sha384 => Some(SigningAlgorithm::RsaPkcs1v15Sha384),
        crate::proto::SigningAlgorithm::RsaPkcs1Sha512 => Some(SigningAlgorithm::RsaPkcs1v15Sha512),
        crate::proto::SigningAlgorithm::EcdsaSha256 => Some(SigningAlgorithm::EcdsaP256Sha256),
        crate::proto::SigningAlgorithm::EcdsaSha384 => Some(SigningAlgorithm::EcdsaP384Sha384),
        crate::proto::SigningAlgorithm::EcdsaSha512 => Some(SigningAlgorithm::EcdsaP521Sha512),
    }
}

/// The key type for a key type of the wire schema, and nothing for the
/// unspecified key type.
pub open spec fn key_type_of_wire(wire: crate::proto::KeyType) -> Option<KeyType> {
    match wire {
        crate::proto::KeyType::Unspecified => None,
        crate::proto::KeyType::Rsa2048 => Some(KeyType::Rsa2048),
        crate::proto::KeyType::Rsa3072 => Some(KeyType::Rsa3072),
        crate::proto::KeyType::Rsa4096 => Some(KeyType::Rsa4096),
        crate::proto::KeyType::EccP256 => Some(KeyType::EccP256),
        crate::proto::KeyType::EccP384 => Some(KeyType::EccP384),
        crate::proto::KeyType::EccP521 => Some(KeyType::EccP521),
    }
}

pub fn proto_to_config_algorithm(wire: crate::proto::SigningAlgorithm) -> (scheme: Option<
    SigningAlgorithm,
>)
    ensures
        scheme == scheme_of_wire(wire),
{
    match wire {
        crate::proto::SigningAlgorithm::Unspecified => None,
        crate::proto::SigningAlgorithm::RsaPssSha256 => Some(SigningAlgorithm::RsaPssSha256),
        crate::proto::SigningAlgorithm::RsaPssSha384 => Some(SigningAlgorithm::RsaPssSha384),
        crate::proto::SigningAlgorithm::RsaPssSha512 => Some(SigningAlgorithm::RsaPssSha512),
        crate::proto::SigningAlgorithm::RsaPkcs1Sha256 => Some(SigningAlgorithm::RsaPkcs1v15Sha256),
        crate::proto::SigningAlgorithm::RsaPkcs1Sha384 => Some(SigningAlgorithm::RsaPkcs1v15Sha384),
        crate::proto::SigningAlgorithm::RsaPkcs1Sha512 => Some(SigningAlgorithm::RsaPkcs1v15Sha512),
        crate::proto::SigningAlgorithm::EcdsaSha256 => Some(SigningAlgorithm::EcdsaP256Sha256),
        crate::proto::SigningAlgorithm::EcdsaSha384 => Some(SigningAlgorithm::EcdsaP384Sha384),
        crate::proto::SigningAlgorithm::EcdsaSha512 => Some(SigningAlgorithm::EcdsaP521Sha512),
    }
}

pub fn proto_to_config_key_type(wire: crate::proto::KeyType) -> (key_type: Option<KeyType>)
    ensures
        key_type == key_type_of_wire(wire),
{
    match wire {
        crate::proto::KeyType::Unspecified => None,
        crate::proto::KeyType::Rsa2048 => Some(KeyType::Rsa2048),
        crate::proto::KeyType::Rsa3072 => Some(KeyType::Rsa3072),
        crate::proto::KeyType::Rsa4096 => Some(KeyType::Rsa4096),
        crate::proto::KeyType::EccP256 => Some(KeyType::EccP256),
        crate::proto::KeyType::EccP384 => Some(KeyType::EccP384),
        crate::proto::KeyType::EccP521 => Some(KeyType::EccP521),
    }
}

/// What the client sends for a signature scheme and for a key type is read
/// back by the server as the same scheme and the same key type.
pub proof fn lemma_wire_round_trip(algorithm: SigningAlgorithm, key_type: KeyType)
    ensures
        scheme_of_wire(wire_algorithm(algorithm)) == Some(algorithm),
        key_type_of_wire(wire_key_type(key_type)) == Some(key_type),
        crate::proto::SigningAlgorithm::of_number(wire_algorithm(algorithm).number()) == Some(
            wire_algorithm(algorithm),
        ),
        crate::proto::KeyType::of_number(wire_key_type(key_type).number()) == Some(
            wire_key_type(key_type),
        ),
{
}

/// Why a request to sign or to verify is not looked at further.
#[derive(Debug, Clone, Copy, PartialEq, Eq, Structural)]
pub enum RequestFault {
    EmptyData,
    DataTooLarge,
    MissingKeyId,
    EmptySignature,
}

impl RequestFault {
    /// The message of the fault.
    pub open spec fn text(self) -> Seq<char> {
        match self {
            RequestFault::EmptyData => "Data cannot be empty"@,
            RequestFault::DataTooLarge => "Data size exceeds maximum limit of 1MB"@,
            RequestFault::MissingKeyId => "Key ID must be specified"@,
            RequestFault::EmptySignature => "Signature cannot be empty"@,
        }
    }

    pub fn message(&self) -> (out: &'static str)
        ensures
            out@ == self.text(),
    {
        match self {
            RequestFault::EmptyData => "Data cannot be empty",
            RequestFault::DataTooLarge => "Data size exceeds maximum limit of 1MB",
            RequestFault::MissingKeyId => "Key ID must be specified",
            RequestFault::EmptySignature => "Signature cannot be empty",
        }
    }
}

/// What a request to sign is checked for: data that is not empty and not
/// larger than the maximum, then a key identifier.
pub open spec fn sign_request_fault(data: Seq<u8>, key_id: Seq<char>) -> Option<RequestFault> {
    if data.len() == 0 {
        Some(RequestFault::EmptyData)
    } else if data.len() > MAX_DATA_LEN {
        Some(RequestFault::DataTooLarge)
    } else if key_id.len() == 0 {
        Some(RequestFault::MissingKeyId)
    } else {
        None
    }
}

/// What a request to verify is checked for: what a request to sign is
/// checked for, and a signature.
pub open spec fn verify_request_fault(data: Seq<u8>, signature: Seq<u8>, key_id: Seq<char>) -> Option<
    RequestFault,
> {
    match sign_request_fault(data, key_id) {
        Some(fault) => Some(fault),
        None => if signature.len() == 0 {
            Some(RequestFault::EmptySignature)
        } else {
            None
        },
    }
}

pub fn validate_sign_request(request: &SignRequest) -> (checked: Result<(), RequestFault>)
    ensures
        checked == match sign_request_fault(request.data@, request.key_id@) {
            Some(fault) => Err::<(), RequestFault>(fault),
            None => Ok(()),
        },
{
    if request.data.len() == 0 {
        Err(RequestFault::EmptyData)
    } else if request.data.len() > MAX_DATA_LEN {
        Err(RequestFault::DataTooLarge)
    } else if request.key_id.as_str().unicode_len() == 0 {
        Err(RequestFault::MissingKeyId)
    } else {
        Ok(())
    }
}

pub fn validate_verify_request(request: &VerifyRequest) -> (checked: Result<(), RequestFault>)
    ensures
        checked == match verify_request_fault(
            request.data@,
            request.signature@,
            request.key_id@,
        ) {
            Some(fault) => Err::<(), RequestFault>(fault),
            None => Ok(()),
        },
{
    if request.data.len() == 0 {
        Err(RequestFault::EmptyData)
    } else if request.data.len() > MAX_DATA_LEN {
        Err(RequestFault::DataTooLarge)
    } else if request.key_id.as_str().unicode_len() == 0 {
        Err(RequestFault::MissingKeyId)
    } else if request.signature.len() == 0 {
        Err(RequestFault::EmptySignature)
    } else {
        Ok(())
    }
}

/// Whether `response` reports the failure of a request to sign with this
/// message and code: no signature, no success.
pub open spec fn is_sign_failure(response: SignResponse, message: Seq<char>, code: ErrorCode) -> bool {
    &&& !response.success
    &&& response.signature@.len() == 0
    &&& response.error_message@ == message
    &&& response.error_code == code.number()
}

/// Whether `response` reports the failure of a request to verify with this
/// message and code: not valid, no success.
pub open spec fn is_verify_failure(response: VerifyResponse, message: Seq<char>, code: ErrorCode) -> bool {
    &&& !response.success
    &&& !response.valid
    &&& response.error_message@ == message
    &&& response.error_code == code.number()
}

/// The answer to a request to sign that failed.
pub fn sign_failure(message: String, code: ErrorCode, elapsed_us: u64) -> (response: SignResponse)
    ensures
        is_sign_failure(response, message@, code),
        response.processing_time_us == elapsed_us,
{
    SignResponse {
        signature: Vec::new(),
        success: false,
        error_message: message,
        error_code: code.as_i32(),
        processing_time_us: elapsed_us,
    }
}

/// The answer to a request to verify that failed.
pub fn verify_failure(message: String, code: ErrorCode) -> (response: VerifyResponse)
    ensures
        is_verify_failure(response, message@, code),
{
    VerifyResponse { valid: false, success: false, error_message: message, error_code: code.as_i32() }
}

/// The text that says that no key has the identifier `key_id`.
pub open spec fn key_not_found_text(key_id: Seq<char>) -> Seq<char> {
    "Key with ID '"@ + key_id + "' not found"@
}

/// The fault for a number that stands for nothing in the wire schema.
fn invalid_argument(message: &str) -> (fault: RpcFault)
    ensures
        fault.code == StatusCode::InvalidArgument,
        fault.message@ == message@,
{
    RpcFault { code: StatusCode::InvalidArgument, message: String::from_str(message) }
}

/// What stands in the way of a request to sign before the key is used, as
/// the answer that reports it.
pub open spec fn sign_refusal(keys: Map<Seq<char>, KeyPairView>, request: SignRequest) -> Option<
    (Seq<char>, ErrorCode),
> {
    match sign_request_fault(request.data@, request.key_id@) {
        Some(fault) => Some((fault.text(), ErrorCode::InvalidData)),
        None => match crate::proto::SigningAlgorithm::of_number(request.algorithm) {
            None => None,
            Some(wire) => match scheme_of_wire(wire) {
                None => Some(("Invalid signing algorithm"@, ErrorCode::InvalidAlgorithm)),
                Some(_) => if !keys.contains_key(request.key_id@) {
                    Some((key_not_found_text(request.key_id@), ErrorCode::KeyNotFound))
                } else {
                    None
                },
            },
        },
    }
}

/// Whether a request to sign is a fault of the RPC layer: its data and key
/// identifier pass, and its scheme is a number that stands for nothing.
pub open spec fn sign_is_fault(request: SignRequest) -> bool {
    sign_request_fault(request.data@, request.key_id@) is None
        && crate::proto::SigningAlgorithm::of_number(request.algorithm) is None
}

/// The scheme that a request to sign or verify asks for, where its number
/// stands for a scheme.
pub open spec fn requested_scheme(number: i32) -> Option<SigningAlgorithm> {
    match crate::proto::SigningAlgorithm::of_number(number) {
        None => None,
        Some(wire) => scheme_of_wire(wire),
    }
}

/// The server of the signing service: its configuration, its keys, and its
/// signer.
#[derive(Debug)]
pub struct GrpcSigningServer {
    config: ServerConfig,
    key_manager: KeyManager,
    signer: RingSigner,
    records: Vec<KeyInfo>,
}

impl GrpcSigningServer {
    /// The key pairs of the server by identifier.
    pub closed spec fn keys(&self) -> Map<Seq<char>, KeyPairView> {
        self.key_manager@
    }

    /// The identifiers of the keys of the server, each once.
    pub closed spec fn key_ids(&self) -> Seq<Seq<char>> {
        self.key_manager.ids()
    }

    /// What was recorded of the keys that were generated on request, oldest
    /// first.
    pub closed spec fn records(&self) -> Seq<KeyInfo> {
        self.records@
    }

    /// The configuration that the server was started with.
    pub closed spec fn configuration(&self) -> ServerConfig {
        self.config
    }

    /// Starts the server's state: a key manager for the configuration, filled
    /// with the contents of the configured key files and, where the
    /// configuration says so, with generated keys; then the signer.
    pub fn new(config: ServerConfig, files: Vec<KeyMaterial>) -> (made: Result<Self, Error>)
        ensures
            all_with_public_key(files@) && (
            !config.crypto.key_generation.generate_at_startup || all_p521(
                config.crypto.key_generation.key_types@,
            )) ==> made is Ok,
            made matches Ok(server) ==> (loaded_map(Map::empty(), files@)
                matches Some(loaded) && if config.crypto.key_generation.generate_at_startup {
                grown_by_generation(
                    loaded,
                    server.keys(),
                    config.crypto.key_generation.key_types@,
                )
            } else {
                server.keys() == loaded
            }),
            made matches Ok(server) ==> server.configuration() == config,
            made matches Err(e) ==> e is Crypto,
    {
        let generation = KeyGenerationConfig {
            generate_at_startup: config.crypto.key_generation.generate_at_startup,
            key_types: copy_key_types(&config.crypto.key_generation.key_types),
            storage_dir: None,
        };
        let loading = config.crypto.key_loading.clone();
        let mut key_manager = KeyManager::new(generation, loading);
        match key_manager.initialize(files) {
            Ok(()) => {},
            Err(e) => {
                return Err(e);
            },
        }
        Ok(GrpcSigningServer { config, key_manager, signer: RingSigner::new(), records: Vec::new() })
    }

    /// The configuration of the server, as it was started with it.
    pub fn config(&self) -> (config: &ServerConfig)
        ensures
            *config == self.configuration(),
    {
        &self.config
    }

    /// Looks at a request to sign and finds its key: the operation to carry
    /// out, or the answer that says why there is none, or a fault of the RPC
    /// layer for a scheme number that stands for nothing.
    pub fn prepare_sign(&self, request: &SignRequest) -> (prepared: Result<
        Result<SigningOperation, (String, ErrorCode)>,
        RpcFault,
    >)
        ensures
            sign_is_fault(*request) <==> prepared is Err,
            prepared matches Err(fault) ==> fault.code == StatusCode::InvalidArgument,
            !sign_is_fault(*request) ==> match sign_refusal(self.keys(), *request) {
                Some((message, code)) => prepared matches Ok(Err((m, c))) && m@ == message && c
                    == code,
                None => prepared matches Ok(Ok(operation)) && operation.data@ == request.data@
                    && Some(operation.algorithm) == requested_scheme(request.algorithm)
                    && operation.key_pair@ == self.keys()[request.key_id@],
            },
    {
        match validate_sign_request(request) {
            Err(fault) => {
                return Ok(Err((String::from_str(fault.message()), ErrorCode::InvalidData)));
            },
            Ok(()) => {},
        }
        let wire = match crate::proto::SigningAlgorithm::from_i32(request.algorithm) {
            None => {
                return Err(invalid_argument("Invalid signing algorithm"));
            },
            Some(wire) => wire,
        };
        let algorithm = match proto_to_config_algorithm(wire) {
            None => {
                return Ok(
                    Err(
                        (String::from_str("Invalid signing algorithm"), ErrorCode::InvalidAlgorithm),
                    ),
                );
            },
            Some(algorithm) => algorithm,
        };
        match self.key_manager.get_key(request.key_id.as_str()) {
            None => Ok(
                Err(
                    (
                        join3("Key with ID '", request.key_id.as_str(), "' not found"),
                        ErrorCode::KeyNotFound,
                    ),
                ),
            ),
            Some(key_pair) => Ok(
                Ok(
                    SigningOperation {
                        data: copy_bytes(request.data.as_slice()),
                        algorithm,
                        key_pair: key_pair.clone(),
                    },
                ),
            ),
        }
    }

    /// Answers a request to sign.
    ///
    /// A request that is refused before the key is used is answered with the
    /// refusal. Otherwise the signer signs: its result is answered with the
    /// signature and a processing time of at least one microsecond, its error
    /// with the code for a failed signing and the text of the error. A pair
    /// of key type and scheme without a primitive is always such an error.
    pub fn sign(&self, request: SignRequest) -> (answered: Result<SignResponse, RpcFault>)
        ensures
            sign_is_fault(request) <==> answered is Err,
            answered matches Ok(response) ==> match sign_refusal(self.keys(), request) {
                Some((message, code)) => is_sign_failure(response, message, code),
                None => if response.success {
                    &&& response.error_code == ErrorCode::Unspecified.number()
                    &&& response.error_message@.len() == 0
                    &&& response.processing_time_us >= 1
                    &&& primitive_for(
                        self.keys()[request.key_id@].key_type,
                        requested_scheme(request.algorithm)->0,
                    ) is Some
                    &&& primitive_for(
                        self.keys()[request.key_id@].key_type,
                        requested_scheme(request.algorithm)->0,
                    ) matches Some(Primitive::Ecdsa(curve)) ==> response.signature@.len()
                        == curve.signature_len()
                } else {
                    &&& response.signature@.len() == 0
                    &&& response.error_code == ErrorCode::SigningFailed.number()
                },
            },
    {
        let start = clock_now();
        let operation = match self.prepare_sign(&request) {
            Err(fault) => {
                return Err(fault);
            },
            Ok(Err((message, code))) => {
                return Ok(sign_failure(message, code, clock_elapsed_micros(&start)));
            },
            Ok(Ok(operation)) => operation,
        };
        let outcome = self.signer.sign(operation);
        Ok(sign_response(outcome, clock_elapsed_micros(&start)))
    }

    /// Answers a request to verify.
    ///
    /// A request that is refused before the key is used is answered with the
    /// refusal. Otherwise the signer verifies with the public key of the
    /// key: its answer is passed on, and its error is answered with the code
    /// for a failed verification.
    pub fn verify(&self, request: VerifyRequest) -> (answered: Result<VerifyResponse, RpcFault>)
        ensures
            verify_is_fault(request) <==> answered is Err,
            answered matches Ok(response) ==> match verify_refusal(self.keys(), request) {
                Some((message, code)) => is_verify_failure(response, message, code),
                None => match primitive_for(
                    self.keys()[request.key_id@].key_type,
                    requested_scheme(request.algorithm)->0,
                ) {
                    None => !response.success && !response.valid && response.error_code
                        == ErrorCode::VerificationFailed.number(),
                    Some(primitive) => response.success && response.error_code
                        == ErrorCode::Unspecified.number() && response.error_message@.len() == 0
                        && response.valid == match primitive {
                        Primitive::Ecdsa(curve) => ecdsa_verifies(
                            curve,
                            self.keys()[request.key_id@].public_key,
                            request.data@,
                            request.signature@,
                        ),
                        Primitive::Rsa(scheme) => rsa_verifies(
                            scheme,
                            self.keys()[request.key_id@].public_key,
                            request.data@,
                            request.signature@,
                        ),
                    },
                },
            },
    {
        match validate_verify_request(&request) {
            Err(fault) => {
                return Ok(
                    verify_failure(String::from_str(fault.message()), ErrorCode::InvalidData),
                );
            },
            Ok(()) => {},
        }
        let wire = match crate::proto::SigningAlgorithm::from_i32(request.algorithm) {
            None => {
                return Err(invalid_argument("Invalid signing algorithm"));
            },
            Some(wire) => wire,
        };
        if crate::proto::HashAlgorithm::from_i32(request.hash_algorithm).is_none() {
            return Err(invalid_argument("Invalid hash algorithm"));
        }
        let algorithm = match proto_to_config_algorithm(wire) {
            None => {
                return Ok(
                    verify_failure(
                        String::from_str("Invalid signing algorithm"),
                        ErrorCode::InvalidAlgorithm,
                    ),
                );
            },
            Some(algorithm) => algorithm,
        };
        let key_pair = match self.key_manager.get_key(request.key_id.as_str()) {
            None => {
                return Ok(
                    verify_failure(
                        join3("Key with ID '", request.key_id.as_str(), "' not found"),
                        ErrorCode::KeyNotFound,
                    ),
                );
            },
            Some(key_pair) => key_pair,
        };
        let checked = self.signer.verify(
            request.data.as_slice(),
            request.signature.as_slice(),
            key_pair,
            algorithm,
        );
        Ok(verify_response(checked))
    }

    /// Answers a request for the health of the service: serving with at
    /// least one key, not serving without keys.
    pub fn health_check(&self, request: &HealthCheckRequest) -> (response: HealthCheckResponse)
        ensures
            is_health_of(response, self.key_ids().len()),
    {
        health_response(self.key_manager.key_count())
    }
}

/// Whether a request to verify is a fault of the RPC layer: its data, key
/// identifier and signature pass, and its scheme or its hash function is a
/// number that stands for nothing.
pub open spec fn verify_is_fault(request: VerifyRequest) -> bool {
    verify_request_fault(request.data@, request.signature@, request.key_id@) is None && (
    crate::proto::SigningAlgorithm::of_number(request.algorithm) is None
        || crate::proto::HashAlgorithm::of_number(request.hash_algorithm) is None)
}

/// What stands in the way of a request to verify before the key is used, as
/// the answer that reports it.
pub open spec fn verify_refusal(keys: Map<Seq<char>, KeyPairView>, request: VerifyRequest) -> Option<
    (Seq<char>, ErrorCode),
> {
    match verify_request_fault(request.data@, request.signature@, request.key_id@) {
        Some(fault) => Some((fault.text(), ErrorCode::InvalidData)),
        None => match requested_scheme(request.algorithm) {
            None => Some(("Invalid signing algorithm"@, ErrorCode::InvalidAlgorithm)),
            Some(_) => if !keys.contains_key(request.key_id@) {
                Some((key_not_found_text(request.key_id@), ErrorCode::KeyNotFound))
            } else {
                None
            },
        },
    }
}

fn copy_key_types(key_types: &Vec<KeyType>) -> (out: Vec<KeyType>)
    ensures
        out@ == key_types@,
{
    let mut out: Vec<KeyType> = Vec::new();
    let mut i: usize = 0;
    while i < key_types.len()
        invariant
            i <= key_types@.len(),
            out@ == key_types@.subrange(0, i as int),
        decreases key_types@.len() - i,
    {
        out.push(key_types[i]);
        assert(out@ =~= key_types@.subrange(0, i + 1));
        i = i + 1;
    }
    assert(key_types@.subrange(0, i as int) =~= key_types@);
    out
}

/// The answer to a request to sign, for what the signer gave: its result as
/// a success, its error as a failed signing with the text of the error.
pub fn sign_response(outcome: Result<SigningResult, Error>, elapsed_us: u64) -> (response:
    SignResponse)
    ensures
        match outcome {
            Ok(result) => response.success && response.signature == result.signature
                && response.error_message@.len() == 0 && response.error_code
                == ErrorCode::Unspecified.number() && response.processing_time_us
                == result.processing_time_us,
            Err(e) => is_sign_failure(
                response,
                "Signing failed: "@ + e.text(),
                ErrorCode::SigningFailed,
            ) && response.processing_time_us == elapsed_us,
        },
{
    match outcome {
        Ok(result) => SignResponse {
            signature: result.signature,
            success: true,
            error_message: String::new(),
            error_code: ErrorCode::Unspecified.as_i32(),
            processing_time_us: result.processing_time_us,
        },
        Err(e) => {
            let text = e.to_string();
            sign_failure(join2("Signing failed: ", text.as_str()), ErrorCode::SigningFailed, elapsed_us)
        },
    }
}

/// The answer to a request to verify, for what the signer gave: its answer
/// as a success, its error as a failed verification with the text of the
/// error.
pub fn verify_response(checked: Result<bool, Error>) -> (response: VerifyResponse)
    ensures
        match checked {
            Ok(valid) => response.success && response.valid == valid
                && response.error_message@.len() == 0 && response.error_code
                == ErrorCode::Unspecified.number(),
            Err(e) => is_verify_failure(
                response,
                "Verification failed: "@ + e.text(),
                ErrorCode::VerificationFailed,
            ),
        },
{
    match checked {
        Ok(valid) => VerifyResponse {
            valid,
            success: true,
            error_message: String::new(),
            error_code: ErrorCode::Unspecified.as_i32(),
        },
        Err(e) => {
            let text = e.to_string();
            verify_failure(
                join2("Verification failed: ", text.as_str()),
                ErrorCode::VerificationFailed,
            )
        },
    }
}

/// Whether `response` is the health of a service with `key_count` keys.
pub open spec fn is_health_of(response: HealthCheckResponse, key_count: nat) -> bool {
    if key_count > 0 {
        response.status == ServingStatus::Serving.number() && response.message@
            == "Service healthy with "@ + decimal_digits(key_count) + " keys available"@
    } else {
        response.status == ServingStatus::NotServing.number() && response.message@
            == "Service unhealthy - no keys available"@
    }
}

/// The health of a service with `key_count` keys.
pub fn health_response(key_count: usize) -> (response: HealthCheckResponse)
    ensures
        is_health_of(response, key_count as nat),
{
    if key_count > 0 {
        let count = decimal_string(key_count as u64);
        HealthCheckResponse {
            status: ServingStatus::Serving.as_i32(),
            message: join3("Service healthy with ", count.as_str(), " keys available"),
        }
    } else {
        HealthCheckResponse {
            status: ServingStatus::NotServing.as_i32(),
            message: String::from_str("Service unhealthy - no keys available"),
        }
    }
}

/// What is known of a key, as a value.
pub struct KeyInfoView {
    pub key_id: Seq<char>,
    pub key_type: i32,
    pub created_at: i64,
    pub description: Seq<char>,
    pub is_active: bool,
}

impl View for KeyInfo {
    type V = KeyInfoView;

    open spec fn view(&self) -> KeyInfoView {
        KeyInfoView {
            key_id: self.key_id@,
            key_type: self.key_type,
            created_at: self.created_at,
            description: self.description@,
            is_active: self.is_active,
        }
    }
}

/// The last record for the key `key_id`, if there is one.
pub open spec fn recorded(records: Seq<KeyInfo>, key_id: Seq<char>) -> Option<KeyInfo>
    decreases records.len(),
{
    if records.len() == 0 {
        None
    } else if records.last().key_id@ == key_id {
        Some(records.last())
    } else {
        recorded(records.drop_last(), key_id)
    }
}

/// What is known of the key `pair`: its identifier and type, and what was
/// recorded when it was generated on request. A key without a record was
/// there from the start: it has no description and no time of creation.
/// Every key is active.
pub open spec fn info_of(pair: KeyPairView, records: Seq<KeyInfo>) -> KeyInfoView {
    KeyInfoView {
        key_id: pair.key_id,
        key_type: wire_key_type(pair.key_type).number(),
        created_at: match recorded(records, pair.key_id) {
            Some(record) => record.created_at,
            None => 0,
        },
        description: match recorded(records, pair.key_id) {
            Some(record) => record.description@,
            None => Seq::empty(),
        },
        is_active: true,
    }
}

/// Whether a key of type `key_type` passes the filter.
pub open spec fn passes(key_type: KeyType, filter: Option<KeyType>) -> bool {
    match filter {
        Some(wanted) => key_type == wanted,
        None => true,
    }
}

/// What is listed for the keys with the identifiers `ids`, in their order:
/// what is known of each key that passes the filter.
pub open spec fn listed(
    ids: Seq<Seq<char>>,
    keys: Map<Seq<char>, KeyPairView>,
    records: Seq<KeyInfo>,
    filter: Option<KeyType>,
) -> Seq<KeyInfoView>
    decreases ids.len(),
{
    if ids.len() == 0 {
        Seq::empty()
    } else {
        let rest = listed(ids.drop_last(), keys, records, filter);
        let pair = keys[ids.last()];
        if passes(pair.key_type, filter) {
            rest.push(info_of(pair, records))
        } else {
            rest
        }
    }
}

/// The views of a list of key information.
pub open spec fn info_views(infos: Seq<KeyInfo>) -> Seq<KeyInfoView> {
    Seq::new(infos.len(), |i: int| infos[i]@)
}

/// The filter that a request to list keys asks for, where its number stands
/// for a key type. The unspecified key type filters nothing.
pub open spec fn requested_filter(number: Option<i32>) -> Option<Option<KeyType>> {
    match number {
        None => Some(None),
        Some(n) => match crate::proto::KeyType::of_number(n) {
            None => None,
            Some(wire) => Some(key_type_of_wire(wire)),
        },
    }
}

/// What stands in the way of a request to generate a key before a key is
/// generated, as the answer that reports it.
pub open spec fn generate_refusal(
    keys: Map<Seq<char>, KeyPairView>,
    request: GenerateKeyRequest,
) -> Option<(Seq<char>, ErrorCode)> {
    if request.key_id@.len() == 0 {
        Some(("Key ID must be specified"@, ErrorCode::InvalidKeyId))
    } else {
        match crate::proto::KeyType::of_number(request.key_type) {
            None => None,
            Some(wire) => match key_type_of_wire(wire) {
                None => Some(("Key type must be specified"@, ErrorCode::InvalidAlgorithm)),
                Some(_) => if keys.contains_key(request.key_id@) {
                    Some(
                        (
                            "Key with ID '"@ + request.key_id@ + "' already exists"@,
                            ErrorCode::KeyAlreadyExists,
                        ),
                    )
                } else {
                    None
                },
            },
        }
    }
}

/// Whether a request to generate a key is a fault of the RPC layer: it names
/// a key, and its key type is a number that stands for nothing.
pub open spec fn generate_is_fault(request: GenerateKeyRequest) -> bool {
    request.key_id@.len() > 0 && crate::proto::KeyType::of_number(request.key_type) is None
}

/// The key type that a request to generate a key asks for, where its number
/// stands for one.
pub open spec fn requested_key_type(number: i32) -> Option<KeyType> {
    match crate::proto::KeyType::of_number(number) {
        None => None,
        Some(wire) => key_type_of_wire(wire),
    }
}

/// Whether `response` reports a failure with this message and code, without
/// information on a key.
pub open spec fn is_generate_failure(
    response: GenerateKeyResponse,
    message: Seq<char>,
    code: ErrorCode,
) -> bool {
    &&& !response.success
    &&& response.key_info is None
    &&& response.error_message@ == message
    &&& response.error_code == code.number()
}

fn generate_failure(message: String, code: ErrorCode) -> (response: GenerateKeyResponse)
    ensures
        is_generate_failure(response, message@, code),
{
    GenerateKeyResponse {
        success: false,
        error_message: message,
        error_code: code.as_i32(),
        key_info: None,
    }
}

proof fn lemma_recorded_push(records: Seq<KeyInfo>, record: KeyInfo, key_id: Seq<char>)
    ensures
        recorded(records.push(record), key_id) == if record.key_id@ == key_id {
            Some(record)
        } else {
            recorded(records, key_id)
        },
{
    assert(records.push(record).drop_last() =~= records);
}

fn find_record<'a>(records: &'a Vec<KeyInfo>, key_id: &str) -> (found: Option<&'a KeyInfo>)
    ensures
        found == match recorded(records@, key_id@) {
            Some(record) => Some(&record),
            None => None,
        },
{
    let mut i = records.len();
    proof {
        assert(records@.subrange(0, i as int) =~= records@);
    }
    while i > 0
        invariant
            i <= records@.len(),
            recorded(records@, key_id@) == recorded(records@.subrange(0, i as int), key_id@),
        decreases i,
    {
        proof {
            let head = records@.subrange(0, i as int);
            assert(head.last() == records@[i - 1]);
            assert(head.drop_last() =~= records@.subrange(0, i - 1));
        }
        if same_text(records[i - 1].key_id.as_str(), key_id) {
            return Some(&records[i - 1]);
        }
        i = i - 1;
    }
    proof {
        assert(records@.subrange(0, 0).len() == 0);
    }
    None
}

fn key_info(pair: &KeyPair, records: &Vec<KeyInfo>) -> (info: KeyInfo)
    ensures
        info@ == info_of(pair@, records@),
{
    let key_type = convert_key_type(pair.key_type).as_i32();
    match find_record(records, pair.key_id.as_str()) {
        Some(record) => KeyInfo {
            key_id: pair.key_id.clone(),
            key_type,
            created_at: record.created_at,
            description: record.description.clone(),
            is_active: true,
        },
        None => KeyInfo {
            key_id: pair.key_id.clone(),
            key_type,
            created_at: 0,
            description: String::new(),
            is_active: true,
        },
    }
}

impl GrpcSigningServer {
    /// Answers a request to list keys: what is known of every key that
    /// passes the filter on the key type, in the order of the identifiers.
    /// Every key is active, so the filter on active keys keeps every key. A
    /// filter number that stands for nothing is a fault of the RPC layer.
    pub fn list_keys(&self, request: &ListKeysRequest) -> (answered: Result<
        ListKeysResponse,
        RpcFault,
    >)
        ensures
            requested_filter(request.key_type_filter) is None <==> answered is Err,
            answered matches Ok(response) ==> {
                &&& response.success
                &&& response.error_code == ErrorCode::Unspecified.number()
                &&& info_views(response.keys@) == listed(
                    self.key_ids(),
                    self.keys(),
                    self.records(),
                    requested_filter(request.key_type_filter)->0,
                )
                &&& response.error_message@ == "Found "@ + decimal_digits(
                    response.keys@.len() as nat,
                ) + " keys"@
            },
    {
        let filter: Option<KeyType> = match request.key_type_filter {
            None => None,
            Some(number) => match crate::proto::KeyType::from_i32(number) {
                None => {
                    return Err(invalid_argument("Invalid key type filter"));
                },
                Some(wire) => proto_to_config_key_type(wire),
            },
        };
        let ids = self.key_manager.list_keys();
        let mut keys: Vec<KeyInfo> = Vec::new();
        let mut i: usize = 0;
        while i < ids.len()
            invariant
                i <= ids@.len(),
                ids@.len() == self.key_manager.ids().len(),
                forall|k: int| 0 <= k < ids@.len() ==> (#[trigger] ids@[k])@ == self.key_manager.ids()[k],
                forall|id: Seq<char>|
                    self.key_manager.ids().contains(id) <==> self.key_manager@.contains_key(id),
                info_views(keys@) == listed(
                    self.key_manager.ids().subrange(0, i as int),
                    self.key_manager@,
                    self.records@,
                    filter,
                ),
            decreases ids@.len() - i,
        {
            proof {
                let all = self.key_manager.ids();
                let head = all.subrange(0, i + 1);
                assert(head.drop_last() =~= all.subrange(0, i as int));
                assert(head.last() == all[i as int]);
                assert(all.contains(all[i as int]));
            }
            let ghost before = keys@;
            match self.key_manager.get_key(ids[i].as_str()) {
                Some(pair) => {
                    let wanted = match filter {
                        Some(key_type) => pair.key_type == key_type,
                        None => true,
                    };
                    if wanted {
                        let info = key_info(pair, &self.records);
                        keys.push(info);
                        proof {
                            assert(info_views(keys@) =~= info_views(before).push(info@));
                        }
                    }
                },
                None => {},
            }
            i = i + 1;
        }
        proof {
            assert(self.key_manager.ids().subrange(0, i as int) =~= self.key_manager.ids());
        }
        let count = decimal_string(keys.len() as u64);
        Ok(
            ListKeysResponse {
                keys,
                success: true,
                error_message: join3("Found ", count.as_str(), " keys"),
                error_code: ErrorCode::Unspecified.as_i32(),
            },
        )
    }

    /// Answers a request to delete a key. A request without a key identifier
    /// and a request for a key that is not there are refused, and change
    /// nothing; otherwise the key is removed.
    pub fn delete_key(&mut self, request: &DeleteKeyRequest) -> (response: DeleteKeyResponse)
        ensures
            final(self).records() == old(self).records(),
            final(self).configuration() == old(self).configuration(),
            if request.key_id@.len() == 0 {
                &&& !response.success
                &&& response.error_code == ErrorCode::InvalidKeyId.number()
                &&& response.error_message@ == "Key ID must be specified"@
                &&& final(self).keys() == old(self).keys()
            } else if !old(self).keys().contains_key(request.key_id@) {
                &&& !response.success
                &&& response.error_code == ErrorCode::KeyNotFound.number()
                &&& response.error_message@ == key_not_found_text(request.key_id@)
                &&& final(self).keys() == old(self).keys()
            } else {
                &&& response.success
                &&& response.error_code == ErrorCode::Unspecified.number()
                &&& response.error_message@.len() == 0
                &&& final(self).keys() == old(self).keys().remove(request.key_id@)
            },
    {
        if request.key_id.as_str().unicode_len() == 0 {
            return DeleteKeyResponse {
                success: false,
                error_message: String::from_str("Key ID must be specified"),
                error_code: ErrorCode::InvalidKeyId.as_i32(),
            };
        }
        if self.key_manager.delete_key(request.key_id.as_str()) {
            DeleteKeyResponse {
                success: true,
                error_message: String::new(),
                error_code: ErrorCode::Unspecified.as_i32(),
            }
        } else {
            proof {
                assert(old(self).keys().remove(request.key_id@) =~= old(self).keys());
            }
            DeleteKeyResponse {
                success: false,
                error_message: join3("Key with ID '", request.key_id.as_str(), "' not found"),
                error_code: ErrorCode::KeyNotFound.as_i32(),
            }
        }
    }

    /// Answers a request to generate a key at the time `now_secs`, in
    /// seconds since the Unix epoch.
    ///
    /// A request without a key identifier, without a key type, or for an
    /// identifier that is taken is refused, and changes nothing. Otherwise a
    /// key of the type is generated: a key that comes back is put under the
    /// identifier of the request and recorded with the description and the
    /// time; a generation that fails is answered as such and changes nothing.
    /// A key on the 521-bit curve is never generated.
    pub fn generate_key(&mut self, request: &GenerateKeyRequest, now_secs: i64) -> (answered:
        Result<GenerateKeyResponse, RpcFault>)
        ensures
            final(self).configuration() == old(self).configuration(),
            generate_is_fault(*request) <==> answered is Err,
            answered is Err ==> final(self).keys() == old(self).keys() && final(self).records()
                == old(self).records(),
            answered matches Ok(response) ==> match generate_refusal(old(self).keys(), *request) {
                Some((message, code)) => is_generate_failure(response, message, code) && final(self).keys() == old(self).keys() && final(self).records() == old(self).records(),
                None => if response.success {
                    &&& response.error_code == ErrorCode::Unspecified.number()
                    &&& response.error_message@.len() == 0
                    &&& final(self).keys().dom() == old(self).keys().dom().insert(request.key_id@)
                    &&& forall|id: Seq<char>|
                        old(self).keys().contains_key(id) ==> #[trigger] final(self).keys()[id]
                            == old(self).keys()[id]
                    &&& final(self).keys()[request.key_id@].key_id == request.key_id@
                    &&& Some(final(self).keys()[request.key_id@].key_type) == requested_key_type(
                        request.key_type,
                    )
                    &&& keys_match(final(self).keys()[request.key_id@])
                    &&& response.key_info matches Some(info) && info@ == (KeyInfoView {
                        key_id: request.key_id@,
                        key_type: request.key_type,
                        created_at: now_secs,
                        description: request.description@,
                        is_active: true,
                    })
                    &&& recorded(final(self).records(), request.key_id@) matches Some(record)
                        && record@ == response.key_info->0@
                } else {
                    &&& response.key_info is None
                    &&& response.error_code == ErrorCode::KeyGenerationFailed.number()
                    &&& final(self).keys() == old(self).keys()
                    &&& final(self).records() == old(self).records()
                },
            },
            requested_key_type(request.key_type) == Some(KeyType::EccP521) ==> (
            answered matches Ok(response) && !response.success),
    {
        if request.key_id.as_str().unicode_len() == 0 {
            return Ok(
                generate_failure(
                    String::from_str("Key ID must be specified"),
                    ErrorCode::InvalidKeyId,
                ),
            );
        }
        let wire = match crate::proto::KeyType::from_i32(request.key_type) {
            None => {
                return Err(invalid_argument("Invalid key type"));
            },
            Some(wire) => wire,
        };
        let key_type = match proto_to_config_key_type(wire) {
            None => {
                return Ok(
                    generate_failure(
                        String::from_str("Key type must be specified"),
                        ErrorCode::InvalidAlgorithm,
                    ),
                );
            },
            Some(key_type) => key_type,
        };
        if self.key_manager.get_key(request.key_id.as_str()).is_some() {
            return Ok(
                generate_failure(
                    join3("Key with ID '", request.key_id.as_str(), "' already exists"),
                    ErrorCode::KeyAlreadyExists,
                ),
            );
        }
        let made = match key_type {
            KeyType::Rsa2048 | KeyType::Rsa3072 | KeyType::Rsa4096 => {
                self.key_manager.generate_rsa_key(key_type)
            },
            _ => self.key_manager.generate_ecc_key(key_type),
        };
        let generated = match made {
            Err(e) => {
                let text = e.to_string();
                return Ok(
                    generate_failure(
                        join2("Key generation failed: ", text.as_str()),
                        ErrorCode::KeyGenerationFailed,
                    ),
                );
            },
            Ok(pair) => pair,
        };
        let pair = KeyPair {
            key_id: request.key_id.clone(),
            key_type: generated.key_type,
            private_key: generated.private_key,
            public_key: generated.public_key,
        };
        proof {
            crate::proto::KeyType::lemma_round_trip(wire);
            let before = old(self).keys();
            assert(before.insert(pair.key_id@, pair@).dom() =~= before.dom().insert(
                request.key_id@,
            ));
        }
        self.key_manager.add_key(pair);
        let record = KeyInfo {
            key_id: request.key_id.clone(),
            key_type: request.key_type,
            created_at: now_secs,
            description: request.description.clone(),
            is_active: true,
        };
        let info = KeyInfo {
            key_id: request.key_id.clone(),
            key_type: request.key_type,
            created_at: now_secs,
            description: request.description.clone(),
            is_active: true,
        };
        proof {
            lemma_recorded_push(self.records@, record, request.key_id@);
        }
        self.records.push(record);
        Ok(
            GenerateKeyResponse {
                success: true,
                error_message: String::new(),
                error_code: ErrorCode::Unspecified.as_i32(),
                key_info: Some(info),
            },
        )
    }
}

/// Whether the server accepts connections.
#[derive(Debug, Clone, Copy, PartialEq, Eq, Structural)]
pub enum ServerPhase {
    /// Connections are accepted.
    Serving,
    /// The shutdown signal has fired: no connection is accepted, and the
    /// open ones are served to their end.
    Draining,
    /// Nothing is accepted and nothing is open.
    Stopped,
}

/// Where the server stands: its phase and the number of open connections.
#[derive(Debug, Clone, Copy, PartialEq, Eq, Structural)]
pub struct ServerLifecycle {
    pub phase: ServerPhase,
    pub open_connections: u64,
}

/// What happens to the server.
#[derive(Debug, Clone, Copy, PartialEq, Eq, Structural)]
pub enum ServerEvent {
    /// A peer has connected.
    ConnectionOffered,
    /// Accepting a connection has failed.
    AcceptFailed,
    /// An open connection has been served to its end.
    ConnectionClosed,
    /// The shutdown signal has fired.
    ShutdownSignal,
}

/// What the server does about an event.
#[derive(Debug, Clone, Copy, PartialEq, Eq, Structural)]
pub enum ServerAction {
    /// Serve the connection on a task of its own.
    Accept,
    /// Drop the connection.
    Refuse,
    /// Go on as before.
    Continue,
    /// Stop accepting, and wait for the open connections.
    StopAccepting,
    /// Return from serving.
    Stop,
}

/// The state after an event, and what the server does about it.
///
/// A connection is accepted while the server is serving. A failed accept
/// changes nothing. A closed connection is counted off, and when it was the
/// last one of a draining server, the server stops. The shutdown signal stops
/// a server without open connections, makes a server with open connections
/// drain, and changes nothing when it has fired before.
pub open spec fn advance(state: ServerLifecycle, event: ServerEvent) -> (
    ServerLifecycle,
    ServerAction,
) {
    match event {
        ServerEvent::ConnectionOffered => if state.phase == ServerPhase::Serving
            && state.open_connections < u64::MAX {
            (
                ServerLifecycle {
                    phase: ServerPhase::Serving,
                    open_connections: (state.open_connections + 1) as u64,
                },
                ServerAction::Accept,
            )
        } else {
            (state, ServerAction::Refuse)
        },
        ServerEvent::AcceptFailed => (state, ServerAction::Continue),
        ServerEvent::ConnectionClosed => {
            let open: u64 = if state.open_connections > 0 {
                (state.open_connections - 1) as u64
            } else {
                0
            };
            if state.phase == ServerPhase::Draining && open == 0 {
                (
                    ServerLifecycle { phase: ServerPhase::Stopped, open_connections: 0 },
                    ServerAction::Stop,
                )
            } else {
                (ServerLifecycle { phase: state.phase, open_connections: open }, ServerAction::Continue)
            }
        },
        ServerEvent::ShutdownSignal => if state.phase == ServerPhase::Serving {
            if state.open_connections == 0 {
                (
                    ServerLifecycle { phase: ServerPhase::Stopped, open_connections: 0 },
                    ServerAction::Stop,
                )
            } else {
                (
                    ServerLifecycle {
                        phase: ServerPhase::Draining,
                        open_connections: state.open_connections,
                    },
                    ServerAction::StopAccepting,
                )
            }
        } else {
            (state, ServerAction::Continue)
        },
    }
}

/// The state after a sequence of events.
pub open spec fn advance_all(state: ServerLifecycle, events: Seq<ServerEvent>) -> ServerLifecycle
    decreases events.len(),
{
    if events.len() == 0 {
        state
    } else {
        advance(advance_all(state, events.drop_last()), events.last()).0
    }
}

/// A state that can be reached: a stopped server has no open connections,
/// and a draining server has at least one.
pub open spec fn reachable(state: ServerLifecycle) -> bool {
    &&& state.phase == ServerPhase::Stopped ==> state.open_connections == 0
    &&& state.phase == ServerPhase::Draining ==> state.open_connections > 0
}

/// Every event leads from a reachable state to a reachable state.
pub proof fn lemma_advance_keeps_reachable(state: ServerLifecycle, event: ServerEvent)
    requires
        reachable(state),
    ensures
        reachable(advance(state, event).0),
{
}

/// Once the shutdown signal has fired, no connection is accepted, whatever
/// happens afterwards.
pub proof fn lemma_no_accept_after_shutdown(
    state: ServerLifecycle,
    later: Seq<ServerEvent>,
    event: ServerEvent,
)
    ensures
        advance(
            advance_all(advance(state, ServerEvent::ShutdownSignal).0, later),
            event,
        ).1 != ServerAction::Accept,
        advance_all(advance(state, ServerEvent::ShutdownSignal).0, later).phase
            != ServerPhase::Serving,
    decreases later.len(),
{
    if later.len() > 0 {
        lemma_no_accept_after_shutdown(state, later.drop_last(), later.last());
    }
}

/// A connection that is open when the shutdown signal fires is served to
/// its end: the signal does not stop the server, and the server stops when
/// the last open connection closes, not before.
pub proof fn lemma_open_connections_finish(state: ServerLifecycle)
    requires
        state.phase == ServerPhase::Serving,
        state.open_connections > 0,
    ensures
        advance(state, ServerEvent::ShutdownSignal).1 == ServerAction::StopAccepting,
        advance(state, ServerEvent::ShutdownSignal).0.open_connections == state.open_connections,
        forall|draining: ServerLifecycle|
            draining.phase == ServerPhase::Draining ==> (#[trigger] advance(
                draining,
                ServerEvent::ConnectionClosed,
            ).1 == ServerAction::Stop <==> draining.open_connections <= 1),
{
}

/// A shutdown signal that fires again changes nothing.
pub proof fn lemma_shutdown_twice(state: ServerLifecycle)
    ensures
        advance(advance(state, ServerEvent::ShutdownSignal).0, ServerEvent::ShutdownSignal).0
            == advance(state, ServerEvent::ShutdownSignal).0,
        advance(advance(state, ServerEvent::ShutdownSignal).0, ServerEvent::ShutdownSignal).1
            == ServerAction::Continue,
{
}

impl ServerLifecycle {
    /// A serving server without open connections.
    pub fn new() -> (out: Self)
        ensures
            out == (ServerLifecycle { phase: ServerPhase::Serving, open_connections: 0 }),
            reachable(out),
    {
        ServerLifecycle { phase: ServerPhase::Serving, open_connections: 0 }
    }

    /// Takes in an event, and says what to do about it.
    pub fn on_event(&mut self, event: ServerEvent) -> (action: ServerAction)
        ensures
            (*final(self), action) == advance(*old(self), event),
    {
        let (next, action) = match event {
            ServerEvent::ConnectionOffered => {
                if self.phase == ServerPhase::Serving && self.open_connections < u64::MAX {
                    (
                        ServerLifecycle {
                            phase: ServerPhase::Serving,
                            open_connections: self.open_connections + 1,
                        },
                        ServerAction::Accept,
                    )
                } else {
                    (*self, ServerAction::Refuse)
                }
            },
            ServerEvent::AcceptFailed => (*self, ServerAction::Continue),
            ServerEvent::ConnectionClosed => {
                let open: u64 = if self.open_connections > 0 {
                    self.open_connections - 1
                } else {
                    0
                };
                if self.phase == ServerPhase::Draining && open == 0 {
                    (
                        ServerLifecycle { phase: ServerPhase::Stopped, open_connections: 0 },
                        ServerAction::Stop,
                    )
                } else {
                    (
                        ServerLifecycle { phase: self.phase, open_connections: open },
                        ServerAction::Continue,
                    )
                }
            },
            ServerEvent::ShutdownSignal => {
                if self.phase == ServerPhase::Serving {
                    if self.open_connections == 0 {
                        (
                            ServerLifecycle { phase: ServerPhase::Stopped, open_connections: 0 },
                            ServerAction::Stop,
                        )
                    } else {
                        (
                            ServerLifecycle {
                                phase: ServerPhase::Draining,
                                open_connections: self.open_connections,
                            },
                            ServerAction::StopAccepting,
                        )
                    }
                } else {
                    (*self, ServerAction::Continue)
                }
            },
        };
        *self = next;
        action
    }
}

/// The settings that the RPC framework serves with.
#[derive(Debug, Clone, Copy, PartialEq, Eq, Structural)]
pub struct ServerTunables {
    pub max_concurrent_streams: u32,
    pub request_timeout_ms: u64,
    pub tcp_keepalive_ms: Option<u64>,
}

/// The settings that the RPC framework serves with, for the performance
/// configuration: as many concurrent streams as connections, the request
/// timeout, and the keep-alive interval where keep-alive is enabled.
pub fn server_tunables(performance: &PerformanceConfig) -> (tunables: ServerTunables)
    ensures
        tunables == (ServerTunables {
            max_concurrent_streams: performance.max_connections,
            request_timeout_ms: performance.request_timeout_ms,
            tcp_keepalive_ms: if performance.keep_alive.enabled {
                Some(performance.keep_alive.interval_ms)
            } else {
                None
            },
        }),
{
    ServerTunables {
        max_concurrent_streams: performance.max_connections,
        request_timeout_ms: performance.request_timeout_ms,
        tcp_keepalive_ms: if performance.keep_alive.enabled {
            Some(performance.keep_alive.interval_ms)
        } else {
            None
        },
    }
}

/// The text `address:port` of the configured network socket.
pub open spec fn socket_text(config: ServerConfig) -> Seq<char> {
    config.bind_address@ + seq![':'] + decimal_digits(config.port as nat)
}

/// The address that the server binds. For the network socket transport the
/// bind address and the port are read together as a socket address. For the
/// hypervisor-local transport the bind address is the context identifier.
pub open spec fn endpoint_of(config: ServerConfig) -> Option<TransportConfig> {
    match config.transport {
        TransportType::Tcp => match parse_socket(socket_text(config)) {
            Some(addr) => Some(TransportConfig::Tcp(addr)),
            None => None,
        },
        TransportType::Vsock => match parse_unsigned(config.bind_address@, 0xffff_ffff) {
            Some(cid) => Some(TransportConfig::Vsock { cid: cid as u32, port: config.port as u32 }),
            None => None,
        },
    }
}

/// The address that the server binds, or an invalid address error that
/// names the text that was read.
pub fn server_endpoint(config: &ServerConfig) -> (endpoint: Result<TransportConfig, Error>)
    ensures
        match endpoint_of(*config) {
            Some(address) => endpoint == Ok::<TransportConfig, Error>(address),
            None => endpoint matches Err(Error::Network(NetworkError::InvalidAddress { address }))
                && address@ == match config.transport {
                TransportType::Tcp => socket_text(*config),
                TransportType::Vsock => config.bind_address@,
            },
        },
{
    match config.transport {
        TransportType::Tcp => {
            proof {
                reveal_strlit(":");
                assert(":"@ =~= seq![':']);
            }
            let port = decimal_string(config.port as u64);
            let text = join3(config.bind_address.as_str(), ":", port.as_str());
            match SocketAddress::from_str(text.as_str()) {
                Some(addr) => Ok(TransportConfig::Tcp(addr)),
                None => Err(Error::Network(NetworkError::InvalidAddress { address: text })),
            }
        },
        TransportType::Vsock => {
            let chars = chars_of(config.bind_address.as_str());
            proof {
                assert(chars@.subrange(0, chars@.len() as int) =~= chars@);
            }
            match read_unsigned(&chars, 0, chars.len(), 0xffff_ffff) {
                Some(cid) => Ok(
                    TransportConfig::Vsock { cid: cid as u32, port: config.port as u32 },
                ),
                None => Err(
                    Error::Network(
                        NetworkError::InvalidAddress { address: config.bind_address.clone() },
                    ),
                ),
            }
        },
    }
}

/// A request to echo a payload, with the time it was sent.
#[derive(Debug, Clone, PartialEq, Eq)]
pub struct EchoRequest {
    pub payload: String,
    pub timestamp: i64,
}

/// The payload of a request with the time it was sent and the time it was
/// answered.
#[derive(Debug, Clone, PartialEq, Eq)]
pub struct EchoResponse {
    pub payload: String,
    pub request_timestamp: i64,
    pub response_timestamp: i64,
}

/// The echo service.
#[derive(Debug, Default)]
pub struct EchoServiceImpl;

impl EchoServiceImpl {
    /// Answers a request with its own payload and time, at the time `now`.
    pub fn echo(&self, request: EchoRequest, now: i64) -> (response: EchoResponse)
        ensures
            response.payload == request.payload,
            response.request_timestamp == request.timestamp,
            response.response_timestamp == now,
    {
        EchoResponse {
            payload: request.payload,
            request_timestamp: request.timestamp,
            response_timestamp: now,
        }
    }
}

} // verus!
