use grpc_performance_rs::client::backoff_delay_ms;
use grpc_performance_rs::config::{KeyType, RetryConfig, SigningAlgorithm};

#[derive(Debug, PartialEq)]
enum ConnectionState {
    Disconnected,
    Connecting,
    Connected,
}

fn calculate_retry_delay(attempt: u32, base_delay_ms: u32) -> u32 {
    let policy = RetryConfig {
        enabled: true,
        max_attempts: 6,
        initial_delay_ms: base_delay_ms as u64,
        max_delay_ms: base_delay_ms as u64 * 32,
        backoff_multiplier_milli: 2000,
    };
    backoff_delay_ms(&policy, attempt) as u32
}

fn validate_key_id(key_id: &str) -> Result<(), &'static str> {
    if key_id.is_empty() {
        Err("Key ID cannot be empty")
    } else if key_id.trim() != key_id {
        Err("Key ID cannot have leading/trailing whitespace")
    } else {
        Ok(())
    }
}

fn algorithm_to_string(algo: u32) -> &'static str {
    match algo {
        0 => "ECDSA_SHA256",
        1 => "ECDSA_SHA384",
        2 => "RSA_PSS",
        3 => "RSA_PKCS1",
        _ => "UNKNOWN",
    }
}

fn string_to_algorithm(s: &str) -> Result<u32, &'static str> {
    match s {
        "ECDSA_SHA256" => Ok(0),
        "ECDSA_SHA384" => Ok(1),
        "RSA_PSS" => Ok(2),
        "RSA_PKCS1" => Ok(3),
        _ => Err("Unknown algorithm"),
    }
}

fn key_id_is_well_formed(key_id: &str) -> bool {
    !key_id.is_empty() && key_id.trim() == key_id
}

fn parse_algorithm(algo: &str) -> Result<&str, &str> {
    match algo {
        "ECDSA_SHA256" => Ok("ECDSA_SHA256"),
        "ECDSA_SHA384" => Ok("ECDSA_SHA384"),
        "RSA_PSS" => Ok("RSA_PSS"),
        "RSA_PKCS1" => Ok("RSA_PKCS1"),
        _ => Err("Invalid algorithm"),
    }
}

fn generate_health_response() -> (String, String, u64) {
    let status = "healthy".to_string();
    let version = "1.0.0".to_string();
    let uptime = 42;
    (status, version, uptime)
}

fn map_error_to_code(error: &str) -> u32 {
    match error {
        "not_found" => 5,
        "invalid_arg" => 3,
        "internal" => 13,
        _ => 2,
    }
}

fn validate_tcp_address(addr: &str) -> bool {
    addr.contains(':') && !addr.is_empty()
}

fn validate_vsock_address(cid: u32, port: u32) -> bool {
    cid > 0 && port > 0 && port <= 65535
}

#[derive(Debug)]
struct TcpConfig {
    address: String,
    port: u16,
    timeout_ms: u32,
}

#[derive(Debug)]
struct VsockConfig {
    cid: u32,
    port: u32,
    timeout_ms: u32,
}

#[derive(Debug, PartialEq)]
enum LinkError {
    ConnectionRefused,
    Timeout,
    InvalidAddress,
    UnknownHost,
}

fn classify_error(error_code: u32) -> LinkError {
    match error_code {
        1 => LinkError::ConnectionRefused,
        2 => LinkError::Timeout,
        3 => LinkError::InvalidAddress,
        4 => LinkError::UnknownHost,
        _ => LinkError::ConnectionRefused,
    }
}

struct PerformanceMetrics {
    latency_p99_ms: u64,
    throughput_rps: u32,
    memory_usage_mb: f64,
    startup_time_ms: u64,
}

fn validate_performance_targets(metrics: &PerformanceMetrics) -> Vec<String> {
    let mut issues = vec![];
    if metrics.latency_p99_ms > 1 {
        issues.push(format!("Latency P99 {}ms exceeds target of 1ms", metrics.latency_p99_ms));
    }
    if metrics.throughput_rps < 10000 {
        issues.push(format!("Throughput {}rps below target of 10000rps", metrics.throughput_rps));
    }
    if metrics.memory_usage_mb > 100.0 {
        issues.push(format!(
            "Memory usage {:.1}MB exceeds target of 100MB",
            metrics.memory_usage_mb
        ));
    }
    if metrics.startup_time_ms > 5000 {
        issues.push(format!("Startup time {}ms exceeds target of 5000ms", metrics.startup_time_ms));
    }
    issues
}

#[test]
fn test_client_module_exists() {
    assert!(true, "Client module test placeholder");
}

#[test]
fn test_connection_state_management() {
    let mut state = ConnectionState::Disconnected;
    assert_eq!(state, ConnectionState::Disconnected);

    state = ConnectionState::Connecting;
    assert_eq!(state, ConnectionState::Connecting);

    state = ConnectionState::Connected;
    assert_eq!(state, ConnectionState::Connected);
}

#[test]
fn test_retry_logic_calculation() {
    assert_eq!(calculate_retry_delay(0, 100), 100);
    assert_eq!(calculate_retry_delay(1, 100), 200);
    assert_eq!(calculate_retry_delay(2, 100), 400);
    assert_eq!(calculate_retry_delay(3, 100), 800);
}

#[test]
fn test_input_validation() {
    assert!(validate_key_id("valid-key").is_ok());
    assert!(validate_key_id("").is_err());
    assert!(validate_key_id("  spaced  ").is_err());
}

#[test]
fn test_algorithm_conversion() {
    for i in 0..4 {
        let algo_str = algorithm_to_string(i);
        let converted_back = string_to_algorithm(algo_str).unwrap();
        assert_eq!(i, converted_back);
    }
}

#[test]
fn test_crypto_module_exists() {
    assert!(true, "Crypto module test placeholder");
}

#[test]
fn test_key_type_basic() {
    let test_data = b"test data";
    assert_eq!(test_data.len(), 9);
}

#[test]
fn test_signing_algorithm_string_conversion() {
    let algorithms = vec!["ECDSA_SHA256", "ECDSA_SHA384", "RSA_PSS", "RSA_PKCS1"];

    for algo in algorithms {
        assert!(!algo.is_empty(), "Algorithm string should not be empty");
        assert!(algo.contains("_"), "Algorithm should contain underscore");
    }
}

#[test]
fn test_key_type_validation() {
    let key_types = vec!["ECC_P256", "ECC_P384", "RSA_2048", "RSA_3072", "RSA_4096"];

    for key_type in key_types {
        assert!(!key_type.is_empty(), "Key type should not be empty");
    }
}

#[test]
fn test_error_handling_basic() {
    let result: Result<(), &str> = Err("Test error");
    assert!(result.is_err());

    let ok_result: Result<i32, &str> = Ok(42);
    assert!(ok_result.is_ok());
    assert_eq!(ok_result.unwrap(), 42);
}

#[test]
fn test_data_validation() {
    let empty_data: &[u8] = &[];
    let small_data = b"hello";
    let large_data = vec![0u8; 1024];

    assert_eq!(empty_data.len(), 0);
    assert_eq!(small_data.len(), 5);
    assert_eq!(large_data.len(), 1024);
}

#[test]
fn test_server_module_exists() {
    assert!(true, "Server module test placeholder");
}

#[test]
fn test_request_validation_basic() {
    assert!(key_id_is_well_formed("valid-key"));
    assert!(!key_id_is_well_formed(""));
    assert!(!key_id_is_well_formed("  spaces  "));
}

#[test]
fn test_algorithm_string_parsing() {
    assert!(parse_algorithm("ECDSA_SHA256").is_ok());
    assert!(parse_algorithm("INVALID").is_err());
}

#[test]
fn test_health_check_logic() {
    let (status, version, uptime) = generate_health_response();
    assert_eq!(status, "healthy");
    assert_eq!(version, "1.0.0");
    assert_eq!(uptime, 42);
}

#[test]
fn test_error_code_mapping() {
    assert_eq!(map_error_to_code("not_found"), 5);
    assert_eq!(map_error_to_code("invalid_arg"), 3);
    assert_eq!(map_error_to_code("internal"), 13);
    assert_eq!(map_error_to_code("unknown_error"), 2);
}

#[test]
fn test_transport_module_exists() {
    assert!(true, "Transport module test placeholder");
}

#[test]
fn test_address_validation() {
    assert!(validate_tcp_address("127.0.0.1:8080"));
    assert!(validate_tcp_address("0.0.0.0:50051"));
    assert!(!validate_tcp_address("invalid"));
    assert!(!validate_tcp_address(""));

    assert!(validate_vsock_address(2, 1234));
    assert!(validate_vsock_address(3, 5678));
    assert!(!validate_vsock_address(0, 1234));
    assert!(!validate_vsock_address(2, 0));
    assert!(!validate_vsock_address(2, 70000));
}

#[test]
fn test_connection_configuration() {
    let tcp_config = TcpConfig { address: "127.0.0.1".to_string(), port: 8080, timeout_ms: 5000 };
    let vsock_config = VsockConfig { cid: 2, port: 1234, timeout_ms: 5000 };

    assert_eq!(tcp_config.address, "127.0.0.1");
    assert_eq!(tcp_config.port, 8080);
    assert_eq!(vsock_config.cid, 2);
    assert_eq!(vsock_config.port, 1234);
    assert_eq!(tcp_config.timeout_ms, vsock_config.timeout_ms);
}

#[test]
fn test_error_handling() {
    assert_eq!(classify_error(1), LinkError::ConnectionRefused);
    assert_eq!(classify_error(2), LinkError::Timeout);
    assert_eq!(classify_error(3), LinkError::InvalidAddress);
    assert_eq!(classify_error(4), LinkError::UnknownHost);
}

#[test]
fn test_performance_target_validation() {
    let good_metrics = PerformanceMetrics {
        latency_p99_ms: 1,
        throughput_rps: 15000,
        memory_usage_mb: 80.0,
        startup_time_ms: 3000,
    };

    let good_issues = validate_performance_targets(&good_metrics);
    assert!(good_issues.is_empty(), "Good metrics should have no issues");

    let poor_metrics = PerformanceMetrics {
        latency_p99_ms: 5,
        throughput_rps: 5000,
        memory_usage_mb: 150.0,
        startup_time_ms: 8000,
    };

    let poor_issues = validate_performance_targets(&poor_metrics);
    assert_eq!(poor_issues.len(), 4, "Poor metrics should have all issues");
}

#[test]
fn key_and_algorithm_names() {
    assert_eq!(KeyType::EccP256.as_str(), "EccP256");
    assert_eq!(KeyType::Rsa4096.as_str(), "Rsa4096");
    assert_eq!(SigningAlgorithm::RsaPkcs1v15Sha512.as_str(), "RsaPkcs1v15Sha512");
    assert_eq!(SigningAlgorithm::EcdsaP521Sha512.as_str(), "EcdsaP521Sha512");
}
