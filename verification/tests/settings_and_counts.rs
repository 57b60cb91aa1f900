use grpc_performance_rs::benchmarks::{
    channel_index, parse_duration, rate_interval_nanos, settled, BenchmarkConfig,
    BenchmarkMetrics, BenchmarkRunner, BenchmarkSettings, ServiceChoice, ServiceType,
    SettingsFault,
};
use grpc_performance_rs::config::{
    ClientConfig, ConnectionPoolConfig, KeepAliveConfig, KeyType, PerformanceConfig, RetryConfig,
    ServerConfig, SigningAlgorithm, TransportType,
};
use grpc_performance_rs::error::{ConfigError, CryptoError, Error, NetworkError, ResourceError, TransportError};
use grpc_performance_rs::transport::{
    create_transport, io_failure, IoOperation, TcpTransport, VsockTransport,
};
use grpc_performance_rs::transport_channel::{
    channel_failed, channel_plan, channel_tunables, connector_accepts, ChannelPlan,
};
use grpc_performance_rs::transport::TransportConfig;
use grpc_performance_rs::{current_timestamp_millis, timestamp_from, DEFAULT_SERVER_ADDR};

#[derive(Debug, PartialEq, Clone)]
enum LinkState {
    Disconnected,
    Connecting,
    Connected,
    Error(String),
}

struct Link {
    id: u32,
    active: bool,
}

impl Link {
    fn new(id: u32) -> Self {
        Link { id, active: true }
    }

    fn close(&mut self) {
        self.active = false;
    }

    fn is_active(&self) -> bool {
        self.active
    }
}

struct ClientSettings {
    server_address: String,
    server_port: u16,
    timeout_seconds: u32,
    retry_attempts: u32,
}

fn validate_config(config: &ClientSettings) -> Result<(), &'static str> {
    if config.server_address.is_empty() {
        return Err("Server address cannot be empty");
    }
    if config.server_port == 0 {
        return Err("Server port cannot be zero");
    }
    if config.timeout_seconds == 0 {
        return Err("Timeout cannot be zero");
    }
    Ok(())
}

#[test]
fn test_transport_type_enum() {
    let tcp = TransportType::Tcp;
    let vsock = TransportType::Vsock;

    assert_eq!(tcp, TransportType::Tcp);
    assert_eq!(vsock, TransportType::Vsock);
    assert_ne!(tcp, vsock);

    let tcp_clone = tcp.clone();
    assert_eq!(tcp, tcp_clone);
}

#[test]
fn test_connection_state_tracking() {
    let mut state = LinkState::Disconnected;
    assert_eq!(state, LinkState::Disconnected);

    state = LinkState::Connecting;
    assert_eq!(state, LinkState::Connecting);

    state = LinkState::Connected;
    assert_eq!(state, LinkState::Connected);

    state = LinkState::Error("Connection failed".to_string());
    match state {
        LinkState::Error(ref msg) => assert_eq!(msg, "Connection failed"),
        _ => panic!("Expected error state"),
    }
}

#[test]
fn test_resource_cleanup_logic() {
    let mut conn = Link::new(1);
    assert!(conn.is_active());
    assert_eq!(conn.id, 1);

    conn.close();
    assert!(!conn.is_active());
}

#[test]
fn test_configuration_validation() {
    let valid_config = ClientSettings {
        server_address: "127.0.0.1".to_string(),
        server_port: 50051,
        timeout_seconds: 30,
        retry_attempts: 3,
    };

    assert!(validate_config(&valid_config).is_ok());

    let invalid_config = ClientSettings {
        server_address: "".to_string(),
        server_port: 50051,
        timeout_seconds: 30,
        retry_attempts: 3,
    };

    assert!(validate_config(&invalid_config).is_err());
    assert_eq!(valid_config.retry_attempts, invalid_config.retry_attempts);
}

#[test]
fn defaults_are_the_documented_values() {
    let server = ServerConfig::default();
    assert_eq!(server.bind_address, "127.0.0.1");
    assert_eq!(server.port, 50051);
    assert_eq!(server.transport, TransportType::Tcp);
    assert!(server.tls.is_none());
    assert_eq!(server.crypto.default_key_type, KeyType::EccP256);
    assert!(server.crypto.key_generation.generate_at_startup);
    assert_eq!(server.crypto.key_generation.key_types, vec![KeyType::EccP256]);
    assert!(server.crypto.key_loading.key_files.is_empty());
    assert_eq!(
        server.crypto.supported_algorithms,
        vec![SigningAlgorithm::EcdsaP256Sha256, SigningAlgorithm::RsaPssSha256]
    );
    assert_eq!(server.logging.level, "info");
    assert!(server.logging.structured && server.logging.log_performance);
    assert!(!server.logging.log_requests);
    assert_eq!(
        server.performance,
        PerformanceConfig {
            max_connections: 1000,
            worker_threads: None,
            connection_timeout_ms: 10_000,
            request_timeout_ms: 30_000,
            keep_alive: KeepAliveConfig { enabled: true, interval_ms: 60_000, timeout_ms: 5_000 },
        }
    );
    let client = ClientConfig::default();
    assert_eq!(client.server_address, DEFAULT_SERVER_ADDR);
    assert_eq!(client.crypto.preferred_algorithm, SigningAlgorithm::EcdsaP256Sha256);
    assert_eq!(
        client.connection_pool,
        ConnectionPoolConfig {
            max_size: 10,
            min_size: 1,
            idle_timeout_ms: 300_000,
            max_lifetime_ms: 3_600_000
        }
    );
    assert_eq!(
        client.retry,
        RetryConfig {
            enabled: true,
            max_attempts: 3,
            initial_delay_ms: 100,
            max_delay_ms: 5_000,
            backoff_multiplier_milli: 2000
        }
    );
    let bench = BenchmarkConfig::default();
    assert_eq!((bench.target_rps, bench.duration_seconds), (1000, 60));
    assert_eq!((bench.num_connections, bench.num_threads), (10, 4));
    assert_eq!(BenchmarkRunner::new(bench).config(), bench);
}

#[test]
fn every_error_reads_as_its_text() {
    assert_eq!(
        NetworkError::DnsResolution { hostname: "h".to_string(), error: "e".to_string() }.to_string(),
        "DNS resolution failed for h: e"
    );
    assert_eq!(NetworkError::ConnectionTimeout { timeout_ms: 0 }.to_string(), "Connection timeout after 0ms");
    assert_eq!(
        NetworkError::ConnectionLost { reason: "gone".to_string() }.to_string(),
        "Connection lost: gone"
    );
    assert_eq!(CryptoError::Ring.to_string(), "Ring error");
    assert_eq!(
        CryptoError::KeyLoading { path: "/k".to_string(), reason: "r".to_string() }.to_string(),
        "Key loading failed from /k: r"
    );
    assert_eq!(
        CryptoError::SigningFailed { algorithm: "a".to_string(), reason: "r".to_string() }.to_string(),
        "Signing failed with a: r"
    );
    assert_eq!(
        CryptoError::VerificationFailed { reason: "r".to_string() }.to_string(),
        "Signature verification failed: r"
    );
    assert_eq!(
        ConfigError::InvalidValue { field: "f".to_string(), value: "v".to_string() }.to_string(),
        "Invalid configuration value for f: v"
    );
    assert_eq!(
        ConfigError::FileNotFound { path: "p".to_string() }.to_string(),
        "Configuration file not found: p"
    );
    assert_eq!(ResourceError::MemoryAllocation { size: 1024 }.to_string(), "Memory allocation failed: 1024 bytes");
    assert_eq!(
        ResourceError::ThreadPoolExhausted { active_threads: 8, max_threads: 8 }.to_string(),
        "Thread pool exhausted: 8/8"
    );
    assert_eq!(
        ResourceError::InsufficientDiskSpace { available: 5, required: u64::MAX }.to_string(),
        "Insufficient disk space: 5 bytes available, 18446744073709551615 bytes required"
    );
    assert_eq!(
        TransportError::UnsupportedType { transport_type: "x".to_string() }.to_string(),
        "Unsupported transport type: x"
    );
    assert_eq!(
        Error::from(TransportError::Tls { message: "m".to_string() }).to_string(),
        "Transport error: TLS error: m"
    );
    assert_eq!(
        Error::from(ResourceError::FileDescriptorLimit { limit: 10 }).to_string(),
        "Resource error: File descriptor limit reached: 10"
    );
    assert_eq!(Error::Io("disk".to_string()).to_string(), "I/O error: disk");
    assert_eq!(
        Error::Grpc { code: 13, message: "internal".to_string() }.to_string(),
        "gRPC error: internal"
    );
}

#[test]
fn transports_by_type() {
    assert_eq!(create_transport(TransportType::Tcp).unwrap().transport_type(), TransportType::Tcp);
    assert_eq!(create_transport(TransportType::Vsock).unwrap().transport_type(), TransportType::Vsock);
    assert_eq!(TcpTransport::new().transport_type(), TransportType::Tcp);
    assert_eq!(VsockTransport::new().transport_type(), TransportType::Vsock);
    assert_eq!(TcpTransport::name(), "TCP");
    assert_eq!(VsockTransport::name(), "VSOCK");
    let tcp = TransportConfig::from_str("1.2.3.4:5").unwrap();
    assert_eq!(TcpTransport::endpoint(&tcp).unwrap().port(), 5);
    let vsock = TransportConfig::Vsock { cid: 1, port: 2 };
    assert_eq!(
        TcpTransport::endpoint(&vsock).unwrap_err().to_string(),
        "Transport not supported: TCP transport does not support VSOCK addresses"
    );
}

#[test]
fn channel_is_planned_by_the_kind_of_address() {
    let tcp = TransportConfig::from_str("10.1.2.3:443").unwrap();
    match channel_plan(&tcp) {
        ChannelPlan::Native { uri } => assert_eq!(uri, "http://10.1.2.3:443"),
        other => panic!("{:?}", other),
    }
    let six = TransportConfig::from_str("[fe80::2%4]:443").unwrap();
    match channel_plan(&six) {
        ChannelPlan::Native { uri } => assert_eq!(uri, "http://[fe80::2%4]:443"),
        other => panic!("{:?}", other),
    }
    let vsock = TransportConfig::Vsock { cid: 3, port: 50051 };
    match channel_plan(&vsock) {
        ChannelPlan::Connector { placeholder_uri, target } => {
            assert_eq!(placeholder_uri, "http://[::]:50051");
            assert_eq!(target, vsock);
        }
        other => panic!("{:?}", other),
    }
    assert_eq!(channel_tunables(&tcp), channel_tunables(&vsock));
    let t = channel_tunables(&tcp);
    assert_eq!((t.tcp_keepalive_ms, t.keep_alive_timeout_ms, t.timeout_ms, t.connect_timeout_ms), (5000, 3000, 15000, 5000));
    assert_eq!(t.initial_stream_window_size, 32 * 1024 * 1024);
    assert_eq!(t.initial_connection_window_size, 32 * 1024 * 1024);
    assert!(t.tcp_nodelay && t.keep_alive_while_idle && t.http2_adaptive_window);
    assert_eq!(
        channel_failed(&vsock, "no route").to_string(),
        "Connection failed: Failed to connect via VSOCK: no route"
    );
    assert_eq!(
        channel_failed(&tcp, "no route").to_string(),
        "Connection failed: Failed to connect via TCP: no route"
    );
    assert!(connector_accepts(&vsock, true).is_ok());
    assert_eq!(
        connector_accepts(&vsock, false).unwrap_err().to_string(),
        "Connection failed: Expected VSOCK connection but got TCP"
    );
    assert!(connector_accepts(&tcp, true).is_err());
}

#[test]
fn durations_are_read_with_their_unit() {
    assert_eq!(parse_duration("30s"), Some(30));
    assert_eq!(parse_duration("2m"), Some(120));
    assert_eq!(parse_duration("1h"), Some(3600));
    assert_eq!(parse_duration("45"), Some(45));
    assert_eq!(parse_duration("  7m\t"), Some(420));
    assert_eq!(parse_duration("+5s"), Some(5));
    assert_eq!(parse_duration("0h"), Some(0));
    assert_eq!(parse_duration(""), None);
    assert_eq!(parse_duration("s"), None);
    assert_eq!(parse_duration("1.5s"), None);
    assert_eq!(parse_duration("10 s"), None);
    assert_eq!(parse_duration("-3m"), None);
    assert_eq!(parse_duration("10d"), None);
    assert_eq!(parse_duration("18446744073709551615"), Some(u64::MAX));
    assert_eq!(parse_duration("18446744073709551616"), None);
    assert_eq!(parse_duration("18446744073709551615m"), None);
    assert_eq!(parse_duration("307445734561825860m"), Some(18446744073709551600));
    assert_eq!(parse_duration("307445734561825861m"), None);
}

#[test]
fn metrics_count_successes_and_failures() {
    let mut m = BenchmarkMetrics::new();
    assert_eq!(m.min_latency_micros, u64::MAX);
    assert_eq!(m.reported_min_latency(), 0);
    assert_eq!(m.mean_latency_micros(), 0);
    m.record_success(30);
    m.record_success(10);
    m.record_failure();
    m.record_success(21);
    assert_eq!(
        m,
        BenchmarkMetrics {
            total_requests: 4,
            successful_requests: 3,
            failed_requests: 1,
            total_latency_micros: 61,
            min_latency_micros: 10,
            max_latency_micros: 30,
        }
    );
    assert_eq!(m.mean_latency_micros(), 20);
    assert_eq!(m.reported_min_latency(), 10);
    let mut full = BenchmarkMetrics { total_latency_micros: u64::MAX, total_requests: u64::MAX, ..m };
    full.record_success(2);
    assert_eq!(full.total_latency_micros, 1);
    assert_eq!(full.total_requests, 0);
}

#[test]
fn channels_take_turns_and_rates_give_intervals() {
    assert_eq!(channel_index(0, 3), 0);
    assert_eq!(channel_index(4, 3), 1);
    assert_eq!(channel_index(u64::MAX, 10), 5);
    assert_eq!(rate_interval_nanos(1), 1_000_000_000);
    assert_eq!(rate_interval_nanos(3), 333_333_333);
    assert_eq!(rate_interval_nanos(u64::MAX), 0);
}

#[test]
fn timestamps_never_go_negative() {
    assert_eq!(timestamp_from(None), 0);
    assert_eq!(timestamp_from(Some(0)), 0);
    assert_eq!(timestamp_from(Some(1_700_000_000_123)), 1_700_000_000_123);
    assert_eq!(timestamp_from(Some(u128::MAX)), i64::MAX);
    assert!(current_timestamp_millis() > 1_600_000_000_000);
}

#[test]
fn failed_io_is_reported_by_operation_and_transport() {
    assert_eq!(
        io_failure(TransportType::Tcp, IoOperation::Read, "reset").to_string(),
        "Network error: Connection lost: TCP read error: reset"
    );
    assert_eq!(
        io_failure(TransportType::Vsock, IoOperation::Write, "pipe").to_string(),
        "Network error: Connection lost: VSOCK write error: pipe"
    );
    assert_eq!(
        io_failure(TransportType::Tcp, IoOperation::Close, "gone").to_string(),
        "Transport error: TCP transport error: Failed to close TCP connection: gone"
    );
    assert_eq!(
        io_failure(TransportType::Vsock, IoOperation::Accept, "full").to_string(),
        "Transport error: VSOCK transport error: Failed to accept VSOCK connection: full"
    );
}

#[test]
fn benchmark_settings_are_checked_in_order() {
    let good = BenchmarkSettings::standard_settings();
    assert_eq!(
        good,
        BenchmarkSettings {
            connections: 10,
            threads: 4,
            requests: 1000,
            rate_limit: None,
            service: ServiceChoice::Echo,
            duration: None,
        }
    );
    assert_eq!(good.validate(), Ok(()));
    let none = BenchmarkSettings { connections: 0, threads: 0, requests: 0, ..good };
    assert_eq!(none.validate(), Err(SettingsFault::NoConnections));
    assert_eq!(
        BenchmarkSettings { threads: 0, requests: 0, ..good }.validate(),
        Err(SettingsFault::NoThreads)
    );
    assert_eq!(
        BenchmarkSettings { requests: 0, ..good }.validate(),
        Err(SettingsFault::NoRequests)
    );
    assert_eq!(BenchmarkSettings { requests: 0, duration: Some(30), ..good }.validate(), Ok(()));
    assert_eq!(
        BenchmarkSettings { rate_limit: Some(0), ..good }.validate(),
        Err(SettingsFault::NoRate)
    );
    assert_eq!(BenchmarkSettings { rate_limit: Some(5), ..good }.validate(), Ok(()));
    assert_eq!(
        SettingsFault::NoConnections.message(),
        "Number of connections must be greater than 0"
    );
    assert_eq!(SettingsFault::NoThreads.message(), "Number of threads must be greater than 0");
}

#[test]
fn command_line_comes_before_the_environment() {
    assert_eq!(settled(Some(1), Some(2), 3), 1);
    assert_eq!(settled(None, Some(2), 3), 2);
    assert_eq!(settled(None, None, 3), 3);
    assert_eq!(settled(Some("a"), None, "c"), "a");
}

#[test]
fn services_are_chosen_by_name() {
    for choice in
        [ServiceChoice::Echo, ServiceChoice::RsaSign, ServiceChoice::EccSign, ServiceChoice::All]
    {
        assert_eq!(ServiceChoice::from_name(choice.as_str()), Some(choice));
    }
    assert_eq!(ServiceChoice::from_name("rsa_sign"), Some(ServiceChoice::RsaSign));
    assert_eq!(ServiceChoice::from_name("ECHO"), None);
    assert_eq!(ServiceChoice::from_name(""), None);
    assert_eq!(ServiceChoice::EccSign.services_to_benchmark(), vec![ServiceType::EccSign]);
    assert_eq!(
        ServiceChoice::All.services_to_benchmark(),
        vec![ServiceType::Echo, ServiceType::RsaSign, ServiceType::EccSign]
    );
    assert_eq!(ServiceType::RsaSign.as_str(), "RSA Sign");
}
