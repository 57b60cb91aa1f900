//! Configuration of the server and of the client. Durations are whole
//! milliseconds, paths are text, and the backoff multiplier is counted in
//! thousandths, so that every value is exact.

use vstd::prelude::*;

verus! {

/// The transport that carries the RPC channel.
#[derive(Debug, Clone, Copy, PartialEq, Eq, Structural)]
pub enum TransportType {
    /// A network socket.
    Tcp,
    /// A hypervisor-local socket.
    Vsock,
}

/// The kind and size of a key.
#[derive(Debug, Clone, Copy, PartialEq, Eq, Structural)]
pub enum KeyType {
    Rsa2048,
    Rsa3072,
    Rsa4096,
    EccP256,
    EccP384,
    EccP521,
}

/// A signature scheme: the padding or curve, and the hash.
#[derive(Debug, Clone, Copy, PartialEq, Eq, Structural)]
pub enum SigningAlgorithm {
    RsaPssSha256,
    RsaPssSha384,
    RsaPssSha512,
    RsaPkcs1v15Sha256,
    RsaPkcs1v15Sha384,
    RsaPkcs1v15Sha512,
    EcdsaP256Sha256,
    EcdsaP384Sha384,
    EcdsaP521Sha512,
}

impl KeyType {
    /// Whether the key is of the RSA family.
    pub open spec fn is_rsa(self) -> bool {
        self == KeyType::Rsa2048 || self == KeyType::Rsa3072 || self == KeyType::Rsa4096
    }

    /// Whether the key is of the elliptic-curve family.
    pub open spec fn is_ecc(self) -> bool {
        self == KeyType::EccP256 || self == KeyType::EccP384 || self == KeyType::EccP521
    }

    /// The size of the key in bits.
    pub open spec fn bits(self) -> u32 {
        match self {
            KeyType::Rsa2048 => 2048,
            KeyType::Rsa3072 => 3072,
            KeyType::Rsa4096 => 4096,
            KeyType::EccP256 => 256,
            KeyType::EccP384 => 384,
            KeyType::EccP521 => 521,
        }
    }

    /// The name of the key type, as it is written in messages and key
    /// identifiers.
    pub open spec fn name(self) -> Seq<char> {
        match self {
            KeyType::Rsa2048 => "Rsa2048"@,
            KeyType::Rsa3072 => "Rsa3072"@,
            KeyType::Rsa4096 => "Rsa4096"@,
            KeyType::EccP256 => "EccP256"@,
            KeyType::EccP384 => "EccP384"@,
            KeyType::EccP521 => "EccP521"@,
        }
    }

    pub fn as_str(&self) -> (out: &'static str)
        ensures
            out@ == self.name(),
    {
        match self {
            KeyType::Rsa2048 => "Rsa2048",
            KeyType::Rsa3072 => "Rsa3072",
            KeyType::Rsa4096 => "Rsa4096",
            KeyType::EccP256 => "EccP256",
            KeyType::EccP384 => "EccP384",
            KeyType::EccP521 => "EccP521",
        }
    }
}

impl SigningAlgorithm {
    /// Whether the scheme signs with an RSA key.
    pub open spec fn is_rsa(self) -> bool {
        !self.is_ecdsa()
    }

    /// Whether the scheme signs with an elliptic-curve key.
    pub open spec fn is_ecdsa(self) -> bool {
        self == SigningAlgorithm::EcdsaP256Sha256 || self == SigningAlgorithm::EcdsaP384Sha384
            || self == SigningAlgorithm::EcdsaP521Sha512
    }

    /// The name of the scheme, as it is written in messages.
    pub open spec fn name(self) -> Seq<char> {
        match self {
            SigningAlgorithm::RsaPssSha256 => "RsaPssSha256"@,
            SigningAlgorithm::RsaPssSha384 => "RsaPssSha384"@,
            SigningAlgorithm::RsaPssSha512 => "RsaPssSha512"@,
            SigningAlgorithm::RsaPkcs1v15Sha256 => "RsaPkcs1v15Sha256"@,
            SigningAlgorithm::RsaPkcs1v15Sha384 => "RsaPkcs1v15Sha384"@,
            SigningAlgorithm::RsaPkcs1v15Sha512 => "RsaPkcs1v15Sha512"@,
            SigningAlgorithm::EcdsaP256Sha256 => "EcdsaP256Sha256"@,
            SigningAlgorithm::EcdsaP384Sha384 => "EcdsaP384Sha384"@,
            SigningAlgorithm::EcdsaP521Sha512 => "EcdsaP521Sha512"@,
        }
    }

    pub fn as_str(&self) -> (out: &'static str)
        ensures
            out@ == self.name(),
    {
        match self {
            SigningAlgorithm::RsaPssSha256 => "RsaPssSha256",
            SigningAlgorithm::RsaPssSha384 => "RsaPssSha384",
            SigningAlgorithm::RsaPssSha512 => "RsaPssSha512",
            SigningAlgorithm::RsaPkcs1v15Sha256 => "RsaPkcs1v15Sha256",
            SigningAlgorithm::RsaPkcs1v15Sha384 => "RsaPkcs1v15Sha384",
            SigningAlgorithm::RsaPkcs1v15Sha512 => "RsaPkcs1v15Sha512",
            SigningAlgorithm::EcdsaP256Sha256 => "EcdsaP256Sha256",
            SigningAlgorithm::EcdsaP384Sha384 => "EcdsaP384Sha384",
            SigningAlgorithm::EcdsaP521Sha512 => "EcdsaP521Sha512",
        }
    }
}

/// TLS settings. Paths are text.
#[derive(Debug, Clone)]
pub struct TlsConfig {
    pub enabled: bool,
    pub cert_path: Option<String>,
    pub key_path: Option<String>,
    pub ca_cert_path: Option<String>,
    pub require_client_cert: bool,
    pub cipher_suites: Vec<String>,
    pub min_tls_version: String,
}

/// Which keys are generated when the key manager starts.
#[derive(Debug, Clone)]
pub struct KeyGenerationConfig {
    pub generate_at_startup: bool,
    pub key_types: Vec<KeyType>,
    pub storage_dir: Option<String>,
}

/// One key file to load: its identifier, its declared type, the path of the
/// private key and, where there is one, the path of the public key.
#[derive(Debug, Clone)]
pub struct KeyFileConfig {
    pub key_id: String,
    pub key_type: KeyType,
    pub private_key_path: String,
    pub public_key_path: Option<String>,
}

/// Which key files are loaded when the key manager starts.
#[derive(Debug, Clone)]
pub struct KeyLoadingConfig {
    pub key_dir: Option<String>,
    pub key_files: Vec<KeyFileConfig>,
}

/// Cryptographic settings of the server.
#[derive(Debug, Clone)]
pub struct CryptoConfig {
    pub default_key_type: KeyType,
    pub key_generation: KeyGenerationConfig,
    pub key_loading: KeyLoadingConfig,
    pub supported_algorithms: Vec<SigningAlgorithm>,
}

/// Cryptographic preferences of the client.
#[derive(Debug, Clone)]
pub struct ClientCryptoConfig {
    pub preferred_key_type: KeyType,
    pub preferred_algorithm: SigningAlgorithm,
    pub algorithm_preferences: Vec<SigningAlgorithm>,
}

/// Logging settings.
#[derive(Debug, Clone)]
pub struct LoggingConfig {
    pub level: String,
    pub structured: bool,
    pub file_path: Option<String>,
    pub log_requests: bool,
    pub log_performance: bool,
}

/// Keep-alive settings, in milliseconds.
#[derive(Debug, Clone, Copy, PartialEq, Eq, Structural)]
pub struct KeepAliveConfig {
    pub enabled: bool,
    pub interval_ms: u64,
    pub timeout_ms: u64,
}

/// Limits and timeouts of the server, in milliseconds.
#[derive(Debug, Clone, Copy, PartialEq, Eq, Structural)]
pub struct PerformanceConfig {
    pub max_connections: u32,
    pub worker_threads: Option<u32>,
    pub connection_timeout_ms: u64,
    pub request_timeout_ms: u64,
    pub keep_alive: KeepAliveConfig,
}

/// Size and lifetimes of the client's connection pool, in milliseconds.
#[derive(Debug, Clone, Copy, PartialEq, Eq, Structural)]
pub struct ConnectionPoolConfig {
    pub max_size: u32,
    pub min_size: u32,
    pub idle_timeout_ms: u64,
    pub max_lifetime_ms: u64,
}

/// How the client retries: whether at all, how often, and how long it waits.
/// The multiplier is counted in thousandths: 2000 doubles the delay.
#[derive(Debug, Clone, Copy, PartialEq, Eq, Structural)]
pub struct RetryConfig {
    pub enabled: bool,
    pub max_attempts: u32,
    pub initial_delay_ms: u64,
    pub max_delay_ms: u64,
    pub backoff_multiplier_milli: u32,
}

/// Everything the server is configured with.
#[derive(Debug, Clone)]
pub struct ServerConfig {
    pub bind_address: String,
    pub port: u16,
    pub transport: TransportType,
    pub tls: Option<TlsConfig>,
    pub crypto: CryptoConfig,
    pub logging: LoggingConfig,
    pub performance: PerformanceConfig,
}

/// Everything the client is configured with.
#[derive(Debug, Clone)]
pub struct ClientConfig {
    pub server_address: String,
    pub transport: TransportType,
    pub tls: Option<TlsConfig>,
    pub crypto: ClientCryptoConfig,
    pub connection_pool: ConnectionPoolConfig,
    pub retry: RetryConfig,
}

impl KeepAliveConfig {
    pub open spec fn standard() -> KeepAliveConfig {
        KeepAliveConfig { enabled: true, interval_ms: 60_000, timeout_ms: 5_000 }
    }
}

impl Default for KeepAliveConfig {
    fn default() -> (out: Self)
        ensures
            out == KeepAliveConfig::standard(),
    {
        KeepAliveConfig { enabled: true, interval_ms: 60_000, timeout_ms: 5_000 }
    }
}

impl PerformanceConfig {
    pub open spec fn standard() -> PerformanceConfig {
        PerformanceConfig {
            max_connections: 1000,
            worker_threads: None,
            connection_timeout_ms: 10_000,
            request_timeout_ms: 30_000,
            keep_alive: KeepAliveConfig::standard(),
        }
    }
}

impl Default for PerformanceConfig {
    fn default() -> (out: Self)
        ensures
            out == PerformanceConfig::standard(),
    {
        PerformanceConfig {
            max_connections: 1000,
            worker_threads: None,
            connection_timeout_ms: 10_000,
            request_timeout_ms: 30_000,
            keep_alive: KeepAliveConfig::default(),
        }
    }
}

impl ConnectionPoolConfig {
    pub open spec fn standard() -> ConnectionPoolConfig {
        ConnectionPoolConfig {
            max_size: 10,
            min_size: 1,
            idle_timeout_ms: 300_000,
            max_lifetime_ms: 3_600_000,
        }
    }
}

impl Default for ConnectionPoolConfig {
    fn default() -> (out: Self)
        ensures
            out == ConnectionPoolConfig::standard(),
    {
        ConnectionPoolConfig {
            max_size: 10,
            min_size: 1,
            idle_timeout_ms: 300_000,
            max_lifetime_ms: 3_600_000,
        }
    }
}

impl RetryConfig {
    pub open spec fn standard() -> RetryConfig {
        RetryConfig {
            enabled: true,
            max_attempts: 3,
            initial_delay_ms: 100,
            max_delay_ms: 5_000,
            backoff_multiplier_milli: 2000,
        }
    }
}

impl Default for RetryConfig {
    fn default() -> (out: Self)
        ensures
            out == RetryConfig::standard(),
    {
        RetryConfig {
            enabled: true,
            max_attempts: 3,
            initial_delay_ms: 100,
            max_delay_ms: 5_000,
            backoff_multiplier_milli: 2000,
        }
    }
}

impl LoggingConfig {
    pub open spec fn is_standard(self) -> bool {
        &&& self.level@ == "info"@
        &&& self.structured
        &&& self.file_path is None
        &&& !self.log_requests
        &&& self.log_performance
    }
}

impl Default for LoggingConfig {
    fn default() -> (out: Self)
        ensures
            out.is_standard(),
    {
        LoggingConfig {
            level: String::from_str("info"),
            structured: true,
            file_path: None,
            log_requests: false,
            log_performance: true,
        }
    }
}

impl KeyGenerationConfig {
    pub open spec fn is_standard(self) -> bool {
        &&& self.generate_at_startup
        &&& self.key_types@ == seq![KeyType::EccP256]
        &&& self.storage_dir is None
    }
}

impl Default for KeyGenerationConfig {
    fn default() -> (out: Self)
        ensures
            out.is_standard(),
    {
        let mut key_types: Vec<KeyType> = Vec::new();
        key_types.push(KeyType::EccP256);
        assert(key_types@ =~= seq![KeyType::EccP256]);
        KeyGenerationConfig { generate_at_startup: true, key_types, storage_dir: None }
    }
}

impl KeyLoadingConfig {
    pub open spec fn is_standard(self) -> bool {
        &&& self.key_dir is None
        &&& self.key_files@.len() == 0
    }
}

impl Default for KeyLoadingConfig {
    fn default() -> (out: Self)
        ensures
            out.is_standard(),
    {
        KeyLoadingConfig { key_dir: None, key_files: Vec::new() }
    }
}

/// The two schemes that are preferred and supported unless configured
/// otherwise, in their order.
pub open spec fn standard_algorithms() -> Seq<SigningAlgorithm> {
    seq![SigningAlgorithm::EcdsaP256Sha256, SigningAlgorithm::RsaPssSha256]
}

fn standard_algorithm_list() -> (out: Vec<SigningAlgorithm>)
    ensures
        out@ == standard_algorithms(),
{
    let mut out: Vec<SigningAlgorithm> = Vec::new();
    out.push(SigningAlgorithm::EcdsaP256Sha256);
    out.push(SigningAlgorithm::RsaPssSha256);
    assert(out@ =~= standard_algorithms());
    out
}

impl CryptoConfig {
    pub open spec fn is_standard(self) -> bool {
        &&& self.default_key_type == KeyType::EccP256
        &&& self.key_generation.is_standard()
        &&& self.key_loading.is_standard()
        &&& self.supported_algorithms@ == standard_algorithms()
    }
}

impl Default for CryptoConfig {
    fn default() -> (out: Self)
        ensures
            out.is_standard(),
    {
        CryptoConfig {
            default_key_type: KeyType::EccP256,
            key_generation: KeyGenerationConfig::default(),
            key_loading: KeyLoadingConfig::default(),
            supported_algorithms: standard_algorithm_list(),
        }
    }
}

impl ClientCryptoConfig {
    pub open spec fn is_standard(self) -> bool {
        &&& self.preferred_key_type == KeyType::EccP256
        &&& self.preferred_algorithm == SigningAlgorithm::EcdsaP256Sha256
        &&& self.algorithm_preferences@ == standard_algorithms()
    }
}

impl Default for ClientCryptoConfig {
    fn default() -> (out: Self)
        ensures
            out.is_standard(),
    {
        ClientCryptoConfig {
            preferred_key_type: KeyType::EccP256,
            preferred_algorithm: SigningAlgorithm::EcdsaP256Sha256,
            algorithm_preferences: standard_algorithm_list(),
        }
    }
}

impl ServerConfig {
    pub open spec fn is_standard(self) -> bool {
        &&& self.bind_address@ == "127.0.0.1"@
        &&& self.port == 50051
        &&& self.transport == TransportType::Tcp
        &&& self.tls is None
        &&& self.crypto.is_standard()
        &&& self.logging.is_standard()
        &&& self.performance == PerformanceConfig::standard()
    }
}

impl Default for ServerConfig {
    fn default() -> (out: Self)
        ensures
            out.is_standard(),
    {
        ServerConfig {
            bind_address: String::from_str("127.0.0.1"),
            port: 50051,
            transport: TransportType::Tcp,
            tls: None,
            crypto: CryptoConfig::default(),
            logging: LoggingConfig::default(),
            performance: PerformanceConfig::default(),
        }
    }
}

impl ClientConfig {
    pub open spec fn is_standard(self) -> bool {
        &&& self.server_address@ == "127.0.0.1:50051"@
        &&& self.transport == TransportType::Tcp
        &&& self.tls is None
        &&& self.crypto.is_standard()
        &&& self.connection_pool == ConnectionPoolConfig::standard()
        &&& self.retry == RetryConfig::standard()
    }
}

impl Default for ClientConfig {
    fn default() -> (out: Self)
        ensures
            out.is_standard(),
    {
        ClientConfig {
            server_address: String::from_str("127.0.0.1:50051"),
            transport: TransportType::Tcp,
            tls: None,
            crypto: ClientCryptoConfig::default(),
            connection_pool: ConnectionPoolConfig::default(),
            retry: RetryConfig::default(),
        }
    }
}

} // verus!
