use grpc_performance_rs::client::{
    backoff_delay_ms, convert_grpc_error, convert_hash_algorithm, convert_key_type,
    convert_signing_algorithm, ClientEvent, ConnectionState, GrpcSigningClient, StatusCode, Step,
};
use grpc_performance_rs::config::{ClientConfig, KeyType, RetryConfig, SigningAlgorithm};
use grpc_performance_rs::error::{Error, NetworkError, ValidationError};
use grpc_performance_rs::proto::{HashAlgorithm, MAX_DATA_LEN};
use grpc_performance_rs::server::{proto_to_config_algorithm, proto_to_config_key_type};

fn policy(enabled: bool, max_attempts: u32) -> RetryConfig {
    RetryConfig {
        enabled,
        max_attempts,
        initial_delay_ms: 100,
        max_delay_ms: 5_000,
        backoff_multiplier_milli: 2000,
    }
}

fn client(retry: RetryConfig) -> GrpcSigningClient {
    let mut config = ClientConfig::default();
    config.retry = retry;
    GrpcSigningClient::new(config)
}

#[test]
fn first_call_dials_then_probes_then_calls() {
    let mut c = client(policy(true, 3));
    assert_eq!(c.connection_state(), ConnectionState::Disconnected);
    assert!(matches!(c.begin_call(), Step::Dial));
    assert_eq!(c.connection_state(), ConnectionState::Connecting);
    assert!(matches!(c.on_event(ClientEvent::Dialed), Step::Probe));
    assert!(c.is_connected());
    match c.on_event(ClientEvent::ProbeSucceeded) {
        Step::Call { timeout_ms } => assert_eq!(timeout_ms, 300_000),
        other => panic!("{:?}", other),
    }
    assert!(matches!(c.begin_call(), Step::Probe));
}

#[test]
fn server_that_refuses_twice_is_reached_on_the_third_probe() {
    let mut c = client(policy(true, 3));
    assert!(matches!(c.begin_call(), Step::Dial));
    assert!(matches!(c.on_event(ClientEvent::Dialed), Step::Probe));
    let mut delays = Vec::new();
    for _ in 0..2 {
        match c.on_event(ClientEvent::ProbeFailed("refused".to_string())) {
            Step::Wait { delay_ms } => delays.push(delay_ms),
            other => panic!("{:?}", other),
        }
        assert!(matches!(c.on_event(ClientEvent::Waited), Step::Dial));
        assert_eq!(c.connection_state(), ConnectionState::Connecting);
        assert!(matches!(c.on_event(ClientEvent::Dialed), Step::Probe));
    }
    assert_eq!(delays, vec![100, 200]);
    assert_eq!(c.attempts(), 2);
    assert!(matches!(c.on_event(ClientEvent::ProbeSucceeded), Step::Call { .. }));
    assert!(c.is_connected());
}

#[test]
fn server_that_always_refuses_fails_after_max_attempts() {
    let mut c = client(policy(true, 3));
    assert!(matches!(c.begin_call(), Step::Dial));
    assert!(matches!(c.on_event(ClientEvent::Dialed), Step::Probe));
    let mut probes = 1;
    loop {
        match c.on_event(ClientEvent::ProbeFailed("unavailable".to_string())) {
            Step::Wait { .. } => {
                assert!(matches!(c.on_event(ClientEvent::Waited), Step::Dial));
                assert!(matches!(c.on_event(ClientEvent::Dialed), Step::Probe));
                probes += 1;
            }
            Step::Fail(error) => {
                assert_eq!(
                    error.to_string(),
                    "Network error: Connection failed: Failed to connect to 127.0.0.1:50051 after 3 attempts: unavailable"
                );
                assert!(matches!(error, Error::Network(NetworkError::ConnectionFailed { .. })));
                break;
            }
            other => panic!("{:?}", other),
        }
    }
    assert_eq!(probes, 3);
    assert_eq!(c.attempts(), 3);
}

#[test]
fn without_retries_or_attempts_the_call_is_made_unprobed() {
    let mut c = client(policy(false, 3));
    assert!(matches!(c.begin_call(), Step::Dial));
    assert!(matches!(c.on_event(ClientEvent::Dialed), Step::Call { .. }));
    let mut c = client(policy(true, 0));
    assert!(matches!(c.begin_call(), Step::Dial));
    assert!(matches!(c.on_event(ClientEvent::Dialed), Step::Call { .. }));
}

#[test]
fn failed_dial_is_a_connection_failure() {
    let mut c = client(policy(true, 3));
    assert!(matches!(c.begin_call(), Step::Dial));
    match c.on_event(ClientEvent::DialFailed("connection refused".to_string())) {
        Step::Fail(error) => assert_eq!(
            error.to_string(),
            "Network error: Connection failed: Failed to connect to 127.0.0.1:50051: connection refused"
        ),
        other => panic!("{:?}", other),
    }
    assert_eq!(c.connection_state(), ConnectionState::Disconnected);
}

#[test]
fn disconnect_is_idempotent() {
    let mut c = client(policy(true, 3));
    c.disconnect();
    assert_eq!(c.connection_state(), ConnectionState::Disconnected);
    assert!(matches!(c.begin_call(), Step::Dial));
    assert!(matches!(c.on_event(ClientEvent::Dialed), Step::Probe));
    assert!(c.is_connected());
    c.disconnect();
    assert_eq!(c.connection_state(), ConnectionState::Disconnected);
    c.disconnect();
    assert_eq!(c.connection_state(), ConnectionState::Disconnected);
    assert!(matches!(c.begin_call(), Step::Dial));
}

#[test]
fn backoff_grows_by_the_multiplier_up_to_the_cap() {
    let p = policy(true, 10);
    let delays: Vec<u64> = (0..8).map(|k| backoff_delay_ms(&p, k)).collect();
    assert_eq!(delays, vec![100, 200, 400, 800, 1600, 3200, 5000, 5000]);
    assert_eq!(backoff_delay_ms(&p, u32::MAX), 5000);
    let half = RetryConfig { backoff_multiplier_milli: 500, initial_delay_ms: 10_000, ..p };
    assert_eq!(backoff_delay_ms(&half, 0), 5000);
    assert_eq!(backoff_delay_ms(&half, 1), 5000);
    assert_eq!(backoff_delay_ms(&half, 2), 2500);
    assert_eq!(backoff_delay_ms(&half, 3), 1250);
    let steady = RetryConfig { backoff_multiplier_milli: 1000, ..p };
    assert_eq!(backoff_delay_ms(&steady, 1000), 100);
    let slow = RetryConfig { backoff_multiplier_milli: 1500, initial_delay_ms: 3, ..p };
    assert_eq!(backoff_delay_ms(&slow, 1), 4);
    assert_eq!(backoff_delay_ms(&slow, 2), 6);
}

#[test]
fn timeouts_and_statuses_map_to_typed_errors() {
    let c = client(policy(true, 3));
    assert_eq!(c.call_timeout_ms(), 300_000);
    let timeout = c.timed_out();
    assert!(matches!(
        timeout,
        Error::Network(NetworkError::ConnectionTimeout { timeout_ms: 300_000 })
    ));
    assert_eq!(timeout.to_string(), "Network error: Connection timeout after 300000ms");
    assert_eq!(
        convert_grpc_error(StatusCode::Unavailable, "down", "host:1", 7).to_string(),
        "Network error: Connection lost: Connection to host:1 unavailable: down"
    );
    assert!(matches!(
        convert_grpc_error(StatusCode::DeadlineExceeded, "late", "host:1", 7),
        Error::Network(NetworkError::ConnectionTimeout { timeout_ms: 7 })
    ));
    assert_eq!(
        convert_grpc_error(StatusCode::InvalidArgument, "bad enum", "host:1", 7).to_string(),
        "Validation error: Invalid input for request: bad enum"
    );
    assert_eq!(
        convert_grpc_error(StatusCode::Internal, "boom", "host:1", 7).to_string(),
        "Network error: Connection failed: gRPC error for host:1: Internal error - boom"
    );
    assert_eq!(
        c.call_failed(StatusCode::NotFound, "x").to_string(),
        "Network error: Connection failed: gRPC error for 127.0.0.1:50051: Some requested entity was not found - x"
    );
}

#[test]
fn requests_are_validated_before_anything_is_sent() {
    let ok = GrpcSigningClient::sign_request(
        b"hello",
        "k1",
        KeyType::EccP256,
        SigningAlgorithm::EcdsaP256Sha256,
    )
    .unwrap();
    assert_eq!(ok.data, b"hello");
    assert_eq!(ok.key_id, "k1");
    assert_eq!(ok.key_type, 4);
    assert_eq!(ok.algorithm, 7);

    let err = GrpcSigningClient::sign_request(b"", "", KeyType::EccP256, SigningAlgorithm::EcdsaP256Sha256)
        .unwrap_err();
    assert_eq!(err.to_string(), "Validation error: Invalid input for data: Data cannot be empty");
    let err = GrpcSigningClient::sign_request(b"x", "", KeyType::EccP256, SigningAlgorithm::EcdsaP256Sha256)
        .unwrap_err();
    assert!(matches!(&err, Error::Validation(ValidationError::InvalidInput { field, .. }) if field == "key_id"));
    assert_eq!(err.to_string(), "Validation error: Invalid input for key_id: Key ID cannot be empty");

    let big = vec![7u8; MAX_DATA_LEN + 1];
    let err = GrpcSigningClient::sign_request(&big, "k", KeyType::EccP256, SigningAlgorithm::EcdsaP256Sha256)
        .unwrap_err();
    assert_eq!(
        err.to_string(),
        "Validation error: Invalid input for data: Data size exceeds maximum limit of 1MB"
    );
    assert!(GrpcSigningClient::sign_request(
        &big[..MAX_DATA_LEN],
        "k",
        KeyType::EccP256,
        SigningAlgorithm::EcdsaP256Sha256
    )
    .is_ok());
    assert!(GrpcSigningClient::verify_request(&big, b"s", "k", SigningAlgorithm::RsaPssSha256, HashAlgorithm::Sha256).is_err());

    let v = GrpcSigningClient::verify_request(
        b"d",
        b"s",
        "k",
        SigningAlgorithm::RsaPkcs1v15Sha512,
        HashAlgorithm::Sha512,
    )
    .unwrap();
    assert_eq!((v.algorithm, v.hash_algorithm), (6, 3));
    assert_eq!((v.data, v.signature, v.key_id), (b"d".to_vec(), b"s".to_vec(), "k".to_string()));
    let err = GrpcSigningClient::verify_request(b"d", b"", "", SigningAlgorithm::RsaPssSha256, HashAlgorithm::Sha256)
        .unwrap_err();
    assert_eq!(
        err.to_string(),
        "Validation error: Invalid input for signature: Signature cannot be empty"
    );
    assert!(GrpcSigningClient::verify_request(b"", b"s", "k", SigningAlgorithm::RsaPssSha256, HashAlgorithm::Sha256).is_err());
    assert!(GrpcSigningClient::verify_request(b"d", b"s", "", SigningAlgorithm::RsaPssSha256, HashAlgorithm::Sha256).is_err());

    assert!(GrpcSigningClient::delete_key_request("").is_err());
    assert_eq!(GrpcSigningClient::delete_key_request("gone").unwrap().key_id, "gone");
    assert_eq!(GrpcSigningClient::health_check_request(None).service, "signing");
    assert_eq!(GrpcSigningClient::health_check_request(Some("other")).service, "other");
    let g = GrpcSigningClient::generate_key_request("id", KeyType::Rsa3072, "what for");
    assert_eq!((g.key_id.as_str(), g.key_type, g.description.as_str()), ("id", 2, "what for"));
    let l = GrpcSigningClient::list_keys_request(Some(KeyType::EccP521), Some(true));
    assert_eq!((l.key_type_filter, l.active_only), (Some(6), Some(true)));
    let l = GrpcSigningClient::list_keys_request(None, None);
    assert_eq!((l.key_type_filter, l.active_only), (None, None));
}

#[test]
fn wire_conversions_round_trip() {
    let key_types = [
        KeyType::Rsa2048,
        KeyType::Rsa3072,
        KeyType::Rsa4096,
        KeyType::EccP256,
        KeyType::EccP384,
        KeyType::EccP521,
    ];
    for key_type in key_types {
        assert_eq!(proto_to_config_key_type(convert_key_type(key_type)), Some(key_type));
    }
    let algorithms = [
        SigningAlgorithm::RsaPssSha256,
        SigningAlgorithm::RsaPssSha384,
        SigningAlgorithm::RsaPssSha512,
        SigningAlgorithm::RsaPkcs1v15Sha256,
        SigningAlgorithm::RsaPkcs1v15Sha384,
        SigningAlgorithm::RsaPkcs1v15Sha512,
        SigningAlgorithm::EcdsaP256Sha256,
        SigningAlgorithm::EcdsaP384Sha384,
        SigningAlgorithm::EcdsaP521Sha512,
    ];
    for (i, algorithm) in algorithms.into_iter().enumerate() {
        let wire = convert_signing_algorithm(algorithm);
        assert_eq!(wire.as_i32(), i as i32 + 1);
        assert_eq!(proto_to_config_algorithm(wire), Some(algorithm));
    }
    assert_eq!(
        proto_to_config_algorithm(grpc_performance_rs::proto::SigningAlgorithm::Unspecified),
        None
    );
    assert_eq!(proto_to_config_key_type(grpc_performance_rs::proto::KeyType::Unspecified), None);
    assert_eq!(convert_hash_algorithm(HashAlgorithm::Sha384), HashAlgorithm::Sha384);
}
