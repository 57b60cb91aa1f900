use grpc_performance_rs::client::StatusCode;
use grpc_performance_rs::config::{KeyType, ServerConfig, TransportType};
use grpc_performance_rs::crypto::keys::KeyMaterial;
use grpc_performance_rs::proto::{
    DeleteKeyRequest, ErrorCode, GenerateKeyRequest, HealthCheckRequest, ListKeysRequest,
    ServingStatus, SignRequest, VerifyRequest, MAX_DATA_LEN,
};
use grpc_performance_rs::server::{
    health_response, server_endpoint, server_tunables, validate_sign_request, EchoRequest,
    EchoServiceImpl, GrpcSigningServer, RequestFault, ServerAction, ServerEvent, ServerLifecycle,
    ServerPhase, ServerTunables,
};
use grpc_performance_rs::transport::{SocketAddrV4, SocketAddress, TransportConfig};

fn server(key_types: Vec<KeyType>) -> GrpcSigningServer {
    let mut config = ServerConfig::default();
    config.crypto.key_generation.generate_at_startup = !key_types.is_empty();
    config.crypto.key_generation.key_types = key_types;
    GrpcSigningServer::new(config, Vec::new()).unwrap()
}

fn sign_request(data: &[u8], key_id: &str, algorithm: i32) -> SignRequest {
    SignRequest { data: data.to_vec(), key_type: 4, algorithm, key_id: key_id.to_string() }
}

#[test]
fn end_to_end_generate_sign_verify() {
    let mut s = server(vec![]);
    let generated = s
        .generate_key(
            &GenerateKeyRequest {
                key_id: "k1".to_string(),
                key_type: 4,
                description: "first".to_string(),
            },
            1_700_000_000,
        )
        .unwrap();
    assert!(generated.success);
    assert_eq!(generated.error_code, 0);
    let info = generated.key_info.unwrap();
    assert_eq!(info.key_id, "k1");
    assert_eq!(info.key_type, 4);
    assert_eq!(info.created_at, 1_700_000_000);
    assert_eq!(info.description, "first");
    assert!(info.is_active);

    let signed = s.sign(sign_request(b"hello", "k1", 7)).unwrap();
    assert!(signed.success);
    assert_eq!(signed.signature.len(), 64);
    assert_eq!(signed.error_code, 0);
    assert_eq!(signed.error_message, "");
    assert!(signed.processing_time_us >= 1);

    let verify = |data: &[u8], signature: &[u8]| {
        s.verify(VerifyRequest {
            data: data.to_vec(),
            signature: signature.to_vec(),
            key_id: "k1".to_string(),
            algorithm: 7,
            hash_algorithm: 1,
        })
        .unwrap()
    };
    let good = verify(b"hello", &signed.signature);
    assert!(good.valid && good.success);
    assert_eq!(good.error_code, 0);
    let bad = verify(b"hellO", &signed.signature);
    assert!(!bad.valid && bad.success);
    let mut altered = signed.signature.clone();
    altered[10] ^= 0x80;
    let bad = verify(b"hello", &altered);
    assert!(!bad.valid && bad.success);
}

#[test]
fn sign_refusals_carry_message_and_code() {
    let s = server(vec![KeyType::EccP256]);
    let r = s.sign(sign_request(b"", "ecc_EccP256", 7)).unwrap();
    assert!(!r.success && r.signature.is_empty());
    assert_eq!((r.error_message.as_str(), r.error_code), ("Data cannot be empty", 3));
    let r = s.sign(sign_request(&vec![0u8; MAX_DATA_LEN + 1], "ecc_EccP256", 7)).unwrap();
    assert_eq!(
        (r.error_message.as_str(), r.error_code),
        ("Data size exceeds maximum limit of 1MB", 3)
    );
    let r = s.sign(sign_request(&vec![0u8; MAX_DATA_LEN], "ecc_EccP256", 7)).unwrap();
    assert!(r.success);
    let r = s.sign(sign_request(b"x", "", 7)).unwrap();
    assert_eq!((r.error_message.as_str(), r.error_code), ("Key ID must be specified", 3));
    let r = s.sign(sign_request(b"x", "ecc_EccP256", 0)).unwrap();
    assert_eq!((r.error_message.as_str(), r.error_code), ("Invalid signing algorithm", 2));
    let r = s.sign(sign_request(b"x", "missing", 7)).unwrap();
    assert_eq!((r.error_message.as_str(), r.error_code), ("Key with ID 'missing' not found", 7));
    let fault = s.sign(sign_request(b"x", "ecc_EccP256", 99)).unwrap_err();
    assert_eq!(fault.code, StatusCode::InvalidArgument);
    let r = s.sign(sign_request(b"x", "ecc_EccP256", 9)).unwrap();
    assert!(!r.success);
    assert_eq!(r.error_code, ErrorCode::SigningFailed as i32);
    assert_eq!(
        r.error_message,
        "Signing failed: Cryptographic error: Unsupported algorithm: ECDSA P-521 not supported"
    );
    let r = s.sign(sign_request(b"x", "ecc_EccP256", 1)).unwrap();
    assert_eq!(r.error_code, 5);
}

#[test]
fn verify_refusals_carry_message_and_code() {
    let s = server(vec![KeyType::EccP256]);
    let request = |data: &[u8], signature: &[u8], key_id: &str, algorithm: i32, hash: i32| VerifyRequest {
        data: data.to_vec(),
        signature: signature.to_vec(),
        key_id: key_id.to_string(),
        algorithm,
        hash_algorithm: hash,
    };
    let r = s.verify(request(b"", b"s", "ecc_EccP256", 7, 1)).unwrap();
    assert_eq!((r.error_message.as_str(), r.error_code), ("Data cannot be empty", 3));
    let r = s.verify(request(b"d", b"", "ecc_EccP256", 7, 1)).unwrap();
    assert_eq!((r.error_message.as_str(), r.error_code), ("Signature cannot be empty", 3));
    let r = s.verify(request(b"d", b"s", "nope", 7, 1)).unwrap();
    assert_eq!((r.error_message.as_str(), r.error_code), ("Key with ID 'nope' not found", 7));
    assert!(!r.valid && !r.success);
    let r = s.verify(request(b"d", b"s", "ecc_EccP256", 0, 1)).unwrap();
    assert_eq!(r.error_code, 2);
    assert!(s.verify(request(b"d", b"s", "ecc_EccP256", 77, 1)).is_err());
    assert!(s.verify(request(b"d", b"s", "ecc_EccP256", 7, 44)).is_err());
    let r = s.verify(request(b"d", b"s", "ecc_EccP256", 8, 2)).unwrap();
    assert!(!r.valid && !r.success);
    assert_eq!(r.error_code, ErrorCode::VerificationFailed as i32);
    let r = s.verify(request(b"d", b"s", "ecc_EccP256", 7, 1)).unwrap();
    assert!(!r.valid && r.success);
}

#[test]
fn generate_refusals_and_duplicates() {
    let mut s = server(vec![]);
    let request = |key_id: &str, key_type: i32| GenerateKeyRequest {
        key_id: key_id.to_string(),
        key_type,
        description: String::new(),
    };
    let r = s.generate_key(&request("", 4), 5).unwrap();
    assert_eq!((r.error_message.as_str(), r.error_code), ("Key ID must be specified", 1));
    assert!(r.key_info.is_none());
    let r = s.generate_key(&request("a", 0), 5).unwrap();
    assert_eq!((r.error_message.as_str(), r.error_code), ("Key type must be specified", 2));
    assert!(s.generate_key(&request("a", 42), 5).is_err());
    let r = s.generate_key(&request("a", 6), 5).unwrap();
    assert!(!r.success);
    assert_eq!(r.error_code, ErrorCode::KeyGenerationFailed as i32);
    assert_eq!(
        r.error_message,
        "Key generation failed: Cryptographic error: Unsupported algorithm: EccP521 - P-521 not supported"
    );
    assert!(s.generate_key(&request("a", 5), 5).unwrap().success);
    let r = s.generate_key(&request("a", 4), 6).unwrap();
    assert_eq!(
        (r.error_message.as_str(), r.error_code),
        ("Key with ID 'a' already exists", ErrorCode::KeyAlreadyExists as i32)
    );
    let listed = s.list_keys(&ListKeysRequest { key_type_filter: None, active_only: None }).unwrap();
    assert_eq!(listed.keys.len(), 1);
    assert_eq!(listed.keys[0].key_type, 5);
    assert_eq!(listed.keys[0].created_at, 5);
}

#[test]
fn list_and_delete_keys() {
    let mut s = server(vec![KeyType::EccP256, KeyType::EccP384]);
    let g = s
        .generate_key(
            &GenerateKeyRequest { key_id: "mine".to_string(), key_type: 4, description: "d".to_string() },
            99,
        )
        .unwrap();
    assert!(g.success);
    let all = s.list_keys(&ListKeysRequest { key_type_filter: None, active_only: Some(true) }).unwrap();
    assert!(all.success);
    assert_eq!(all.error_message, "Found 3 keys");
    let ids: Vec<&str> = all.keys.iter().map(|k| k.key_id.as_str()).collect();
    assert_eq!(ids, vec!["ecc_EccP256", "ecc_EccP384", "mine"]);
    assert_eq!(all.keys[0].created_at, 0);
    assert_eq!(all.keys[0].description, "");
    assert_eq!(all.keys[2].created_at, 99);
    assert_eq!(all.keys[2].description, "d");
    assert!(all.keys.iter().all(|k| k.is_active));
    let p256 = s.list_keys(&ListKeysRequest { key_type_filter: Some(4), active_only: None }).unwrap();
    let ids: Vec<&str> = p256.keys.iter().map(|k| k.key_id.as_str()).collect();
    assert_eq!(ids, vec!["ecc_EccP256", "mine"]);
    assert_eq!(p256.error_message, "Found 2 keys");
    let rsa = s.list_keys(&ListKeysRequest { key_type_filter: Some(1), active_only: None }).unwrap();
    assert!(rsa.keys.is_empty());
    let unfiltered = s.list_keys(&ListKeysRequest { key_type_filter: Some(0), active_only: None }).unwrap();
    assert_eq!(unfiltered.keys.len(), 3);
    assert!(s.list_keys(&ListKeysRequest { key_type_filter: Some(9), active_only: None }).is_err());

    let d = s.delete_key(&DeleteKeyRequest { key_id: String::new() });
    assert_eq!((d.success, d.error_code), (false, ErrorCode::InvalidKeyId as i32));
    let d = s.delete_key(&DeleteKeyRequest { key_id: "nope".to_string() });
    assert_eq!((d.success, d.error_code), (false, ErrorCode::KeyNotFound as i32));
    assert_eq!(d.error_message, "Key with ID 'nope' not found");
    let d = s.delete_key(&DeleteKeyRequest { key_id: "ecc_EccP256".to_string() });
    assert_eq!((d.success, d.error_code, d.error_message.as_str()), (true, 0, ""));
    let d = s.delete_key(&DeleteKeyRequest { key_id: "ecc_EccP256".to_string() });
    assert!(!d.success);
    let left = s.list_keys(&ListKeysRequest { key_type_filter: None, active_only: None }).unwrap();
    assert_eq!(left.keys.len(), 2);
}

#[test]
fn health_follows_the_number_of_keys() {
    let s = server(vec![]);
    let h = s.health_check(&HealthCheckRequest { service: "signing".to_string() });
    assert_eq!(h.status, ServingStatus::NotServing as i32);
    assert_eq!(h.message, "Service unhealthy - no keys available");
    let s = server(vec![KeyType::EccP256]);
    let h = s.health_check(&HealthCheckRequest { service: String::new() });
    assert_eq!(h.status, ServingStatus::Serving as i32);
    assert_eq!(h.message, "Service healthy with 1 keys available");
    assert_eq!(health_response(12).message, "Service healthy with 12 keys available");
}

#[test]
fn server_starts_with_loaded_and_generated_keys() {
    let mut config = ServerConfig::default();
    config.crypto.key_generation.key_types = vec![KeyType::EccP256, KeyType::EccP521];
    let files = vec![KeyMaterial {
        key_id: "loaded".to_string(),
        key_type: KeyType::Rsa2048,
        private_key: vec![1, 2],
        public_key: Some(vec![3]),
    }];
    let s = GrpcSigningServer::new(config, files).unwrap();
    let listed = s.list_keys(&ListKeysRequest { key_type_filter: None, active_only: None }).unwrap();
    let ids: Vec<&str> = listed.keys.iter().map(|k| k.key_id.as_str()).collect();
    assert_eq!(ids, vec!["loaded", "ecc_EccP256"]);

    let mut config = ServerConfig::default();
    config.crypto.key_generation.generate_at_startup = false;
    let files = vec![KeyMaterial {
        key_id: "broken".to_string(),
        key_type: KeyType::EccP256,
        private_key: vec![1, 2],
        public_key: None,
    }];
    assert!(GrpcSigningServer::new(config, files).is_err());
}

#[test]
fn sign_request_validation_order() {
    let r = |data: Vec<u8>, key_id: &str| SignRequest {
        data,
        key_type: 0,
        algorithm: 0,
        key_id: key_id.to_string(),
    };
    assert_eq!(validate_sign_request(&r(vec![], "")), Err(RequestFault::EmptyData));
    assert_eq!(validate_sign_request(&r(vec![0; MAX_DATA_LEN + 1], "")), Err(RequestFault::DataTooLarge));
    assert_eq!(validate_sign_request(&r(vec![1], "")), Err(RequestFault::MissingKeyId));
    assert_eq!(validate_sign_request(&r(vec![1], "k")), Ok(()));
    assert_eq!(MAX_DATA_LEN, 1024 * 1024);
}

#[test]
fn shutdown_lets_open_connections_finish_and_accepts_no_more() {
    let mut server = ServerLifecycle::new();
    assert_eq!(server.on_event(ServerEvent::ConnectionOffered), ServerAction::Accept);
    assert_eq!(server.on_event(ServerEvent::ConnectionOffered), ServerAction::Accept);
    assert_eq!(server.on_event(ServerEvent::AcceptFailed), ServerAction::Continue);
    assert_eq!(server.open_connections, 2);
    assert_eq!(server.on_event(ServerEvent::ShutdownSignal), ServerAction::StopAccepting);
    assert_eq!(server.phase, ServerPhase::Draining);
    assert_eq!(server.on_event(ServerEvent::ConnectionOffered), ServerAction::Refuse);
    assert_eq!(server.on_event(ServerEvent::ShutdownSignal), ServerAction::Continue);
    assert_eq!(server.on_event(ServerEvent::ConnectionClosed), ServerAction::Continue);
    assert_eq!(server.phase, ServerPhase::Draining);
    assert_eq!(server.on_event(ServerEvent::ConnectionClosed), ServerAction::Stop);
    assert_eq!(server, ServerLifecycle { phase: ServerPhase::Stopped, open_connections: 0 });
    assert_eq!(server.on_event(ServerEvent::ConnectionOffered), ServerAction::Refuse);
    assert_eq!(server.on_event(ServerEvent::ShutdownSignal), ServerAction::Continue);

    let mut idle = ServerLifecycle::new();
    assert_eq!(idle.on_event(ServerEvent::ShutdownSignal), ServerAction::Stop);
    assert_eq!(idle.phase, ServerPhase::Stopped);
    let mut busy = ServerLifecycle::new();
    assert_eq!(busy.on_event(ServerEvent::ConnectionClosed), ServerAction::Continue);
    assert_eq!(busy.open_connections, 0);
}

#[test]
fn server_endpoint_and_tunables_follow_the_configuration() {
    let config = ServerConfig::default();
    assert_eq!(
        server_endpoint(&config).unwrap(),
        TransportConfig::Tcp(SocketAddress::V4(SocketAddrV4 { a: 127, b: 0, c: 0, d: 1, port: 50051 }))
    );
    let mut six = ServerConfig::default();
    six.bind_address = "[::1]".to_string();
    assert_eq!(server_endpoint(&six).unwrap().to_string(), "[::1]:50051");
    let mut bad = ServerConfig::default();
    bad.bind_address = "localhost".to_string();
    assert_eq!(
        server_endpoint(&bad).unwrap_err().to_string(),
        "Network error: Invalid address: localhost:50051"
    );
    let mut vsock = ServerConfig::default();
    vsock.transport = TransportType::Vsock;
    vsock.bind_address = "3".to_string();
    vsock.port = 9000;
    assert_eq!(server_endpoint(&vsock).unwrap(), TransportConfig::Vsock { cid: 3, port: 9000 });
    vsock.bind_address = "127.0.0.1".to_string();
    assert_eq!(
        server_endpoint(&vsock).unwrap_err().to_string(),
        "Network error: Invalid address: 127.0.0.1"
    );
    assert_eq!(
        server_tunables(&config.performance),
        ServerTunables {
            max_concurrent_streams: 1000,
            request_timeout_ms: 30_000,
            tcp_keepalive_ms: Some(60_000)
        }
    );
    let mut quiet = config.performance;
    quiet.keep_alive.enabled = false;
    assert_eq!(server_tunables(&quiet).tcp_keepalive_ms, None);
}

#[test]
fn echo_returns_the_payload_with_both_times() {
    let response = EchoServiceImpl.echo(EchoRequest { payload: "ping".to_string(), timestamp: 5 }, 9);
    assert_eq!(response.payload, "ping");
    assert_eq!(response.request_timestamp, 5);
    assert_eq!(response.response_timestamp, 9);
}

#[test]
fn server_keeps_its_configuration() {
    let mut config = ServerConfig::default();
    config.bind_address = "10.1.2.3".to_string();
    config.port = 4321;
    config.crypto.key_generation.generate_at_startup = false;
    let mut s = GrpcSigningServer::new(config, Vec::new()).unwrap();
    assert_eq!(s.config().bind_address, "10.1.2.3");
    assert_eq!(s.config().port, 4321);
    let deleted = s.delete_key(&DeleteKeyRequest { key_id: "absent".to_string() });
    assert!(!deleted.success);
    assert_eq!(s.config().bind_address, "10.1.2.3");
    assert_eq!(s.config().port, 4321);
    assert!(!s.config().crypto.key_generation.generate_at_startup);
}
