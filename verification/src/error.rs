//! The errors of the system, by family, and the text that each one reads as.

use crate::text::{decimal_digits, decimal_string, join2, join3, join4, join5};
use vstd::prelude::*;
use vstd::std_specs::convert::FromSpecImpl;

verus! {

/// Failures of the network: dialing, waiting, a lost peer, a bad address.
#[derive(Debug, Clone)]
pub enum NetworkError {
    ConnectionFailed { message: String },
    ConnectionTimeout { timeout_ms: u64 },
    ConnectionLost { reason: String },
    DnsResolution { hostname: String, error: String },
    InvalidAddress { address: String },
}

/// Failures of key handling, signing and verification.
#[derive(Debug, Clone)]
pub enum CryptoError {
    KeyGeneration { reason: String },
    KeyLoading { path: String, reason: String },
    InvalidKeyFormat { reason: String },
    SigningFailed { algorithm: String, reason: String },
    VerificationFailed { reason: String },
    UnsupportedAlgorithm { algorithm: String },
    Ring,
}

/// Failures of reading and interpreting configuration.
#[derive(Debug, Clone)]
pub enum ConfigError {
    FileNotFound { path: String },
    InvalidFormat { path: String, reason: String },
    MissingField { field: String },
    InvalidValue { field: String, value: String },
    PermissionDenied { path: String },
    Parsing(String),
}

/// Exhausted resources.
#[derive(Debug, Clone)]
pub enum ResourceError {
    MemoryAllocation { size: usize },
    FileDescriptorLimit { limit: u32 },
    ThreadPoolExhausted { active_threads: u32, max_threads: u32 },
    ConnectionPoolExhausted { active_connections: u32, max_connections: u32 },
    InsufficientDiskSpace { available: u64, required: u64 },
}

/// Failures of one transport, or of choosing one.
#[derive(Debug, Clone)]
pub enum TransportError {
    Tcp { message: String },
    Vsock { message: String },
    Tls { message: String },
    UnsupportedType { transport_type: String },
    Configuration { message: String },
}

/// A request that is refused before anything is sent.
#[derive(Debug, Clone)]
pub enum ValidationError {
    InvalidInput { field: String, message: String },
}

/// Any error of the system.
#[derive(Debug, Clone)]
pub enum Error {
    Network(NetworkError),
    Crypto(CryptoError),
    Config(ConfigError),
    Resource(ResourceError),
    Transport(TransportError),
    Validation(ValidationError),
    /// A status of the RPC layer: its numeric code and its message.
    Grpc { code: i32, message: String },
    /// An input or output error, by its text.
    Io(String),
}

impl NetworkError {
    /// The text of the error.
    pub open spec fn text(self) -> Seq<char> {
        match self {
            NetworkError::ConnectionFailed { message } => "Connection failed: "@ + message@,
            NetworkError::ConnectionTimeout { timeout_ms } => "Connection timeout after "@
                + decimal_digits(timeout_ms as nat) + "ms"@,
            NetworkError::ConnectionLost { reason } => "Connection lost: "@ + reason@,
            NetworkError::DnsResolution { hostname, error } => "DNS resolution failed for "@
                + hostname@ + ": "@ + error@,
            NetworkError::InvalidAddress { address } => "Invalid address: "@ + address@,
        }
    }

    pub fn to_string(&self) -> (out: String)
        ensures
            out@ == self.text(),
    {
        match self {
            NetworkError::ConnectionFailed { message } => join2(
                "Connection failed: ",
                message.as_str(),
            ),
            NetworkError::ConnectionTimeout { timeout_ms } => {
                let n = decimal_string(*timeout_ms);
                join3("Connection timeout after ", n.as_str(), "ms")
            },
            NetworkError::ConnectionLost { reason } => join2("Connection lost: ", reason.as_str()),
            NetworkError::DnsResolution { hostname, error } => join4(
                "DNS resolution failed for ",
                hostname.as_str(),
                ": ",
                error.as_str(),
            ),
            NetworkError::InvalidAddress { address } => join2(
                "Invalid address: ",
                address.as_str(),
            ),
        }
    }
}

impl CryptoError {
    /// The text of the error.
    pub open spec fn text(self) -> Seq<char> {
        match self {
            CryptoError::KeyGeneration { reason } => "Key generation failed: "@ + reason@,
            CryptoError::KeyLoading { path, reason } => "Key loading failed from "@ + path@ + ": "@
                + reason@,
            CryptoError::InvalidKeyFormat { reason } => "Invalid key format: "@ + reason@,
            CryptoError::SigningFailed { algorithm, reason } => "Signing failed with "@
                + algorithm@ + ": "@ + reason@,
            CryptoError::VerificationFailed { reason } => "Signature verification failed: "@
                + reason@,
            CryptoError::UnsupportedAlgorithm { algorithm } => "Unsupported algorithm: "@
                + algorithm@,
            CryptoError::Ring => "Ring error"@,
        }
    }

    pub fn to_string(&self) -> (out: String)
        ensures
            out@ == self.text(),
    {
        match self {
            CryptoError::KeyGeneration { reason } => join2(
                "Key generation failed: ",
                reason.as_str(),
            ),
            CryptoError::KeyLoading { path, reason } => join4(
                "Key loading failed from ",
                path.as_str(),
                ": ",
                reason.as_str(),
            ),
            CryptoError::InvalidKeyFormat { reason } => join2(
                "Invalid key format: ",
                reason.as_str(),
            ),
            CryptoError::SigningFailed { algorithm, reason } => join4(
                "Signing failed with ",
                algorithm.as_str(),
                ": ",
                reason.as_str(),
            ),
            CryptoError::VerificationFailed { reason } => join2(
                "Signature verification failed: ",
                reason.as_str(),
            ),
            CryptoError::UnsupportedAlgorithm { algorithm } => join2(
                "Unsupported algorithm: ",
                algorithm.as_str(),
            ),
            CryptoError::Ring => String::from_str("Ring error"),
        }
    }
}

impl ConfigError {
    /// The text of the error.
    pub open spec fn text(self) -> Seq<char> {
        match self {
            ConfigError::FileNotFound { path } => "Configuration file not found: "@ + path@,
            ConfigError::InvalidFormat { path, reason } => "Invalid configuration format in "@
                + path@ + ": "@ + reason@,
            ConfigError::MissingField { field } => "Missing required configuration field: "@
                + field@,
            ConfigError::InvalidValue { field, value } => "Invalid configuration value for "@
                + field@ + ": "@ + value@,
            ConfigError::PermissionDenied { path } => "Permission denied accessing "@ + path@,
            ConfigError::Parsing(cause) => "Configuration parsing error: "@ + cause@,
        }
    }

    pub fn to_string(&self) -> (out: String)
        ensures
            out@ == self.text(),
    {
        match self {
            ConfigError::FileNotFound { path } => join2(
                "Configuration file not found: ",
                path.as_str(),
            ),
            ConfigError::InvalidFormat { path, reason } => join4(
                "Invalid configuration format in ",
                path.as_str(),
                ": ",
                reason.as_str(),
            ),
            ConfigError::MissingField { field } => join2(
                "Missing required configuration field: ",
                field.as_str(),
            ),
            ConfigError::InvalidValue { field, value } => join4(
                "Invalid configuration value for ",
                field.as_str(),
                ": ",
                value.as_str(),
            ),
            ConfigError::PermissionDenied { path } => join2(
                "Permission denied accessing ",
                path.as_str(),
            ),
            ConfigError::Parsing(cause) => join2("Configuration parsing error: ", cause.as_str()),
        }
    }
}

impl ResourceError {
    /// The text of the error.
    pub open spec fn text(self) -> Seq<char> {
        match self {
            ResourceError::MemoryAllocation { size } => "Memory allocation failed: "@
                + decimal_digits(size as nat) + " bytes"@,
            ResourceError::FileDescriptorLimit { limit } => "File descriptor limit reached: "@
                + decimal_digits(limit as nat),
            ResourceError::ThreadPoolExhausted { active_threads, max_threads } =>
                "Thread pool exhausted: "@ + decimal_digits(active_threads as nat) + "/"@
                    + decimal_digits(max_threads as nat),
            ResourceError::ConnectionPoolExhausted { active_connections, max_connections } =>
                "Connection pool exhausted: "@ + decimal_digits(active_connections as nat) + "/"@
                    + decimal_digits(max_connections as nat),
            ResourceError::InsufficientDiskSpace { available, required } =>
                "Insufficient disk space: "@ + decimal_digits(available as nat)
                    + " bytes available, "@ + decimal_digits(required as nat)
                    + " bytes required"@,
        }
    }

    pub fn to_string(&self) -> (out: String)
        ensures
            out@ == self.text(),
    {
        match self {
            ResourceError::MemoryAllocation { size } => {
                let n = decimal_string(*size as u64);
                join3("Memory allocation failed: ", n.as_str(), " bytes")
            },
            ResourceError::FileDescriptorLimit { limit } => {
                let n = decimal_string(*limit as u64);
                join2("File descriptor limit reached: ", n.as_str())
            },
            ResourceError::ThreadPoolExhausted { active_threads, max_threads } => {
                let a = decimal_string(*active_threads as u64);
                let m = decimal_string(*max_threads as u64);
                join4("Thread pool exhausted: ", a.as_str(), "/", m.as_str())
            },
            ResourceError::ConnectionPoolExhausted { active_connections, max_connections } => {
                let a = decimal_string(*active_connections as u64);
                let m = decimal_string(*max_connections as u64);
                join4("Connection pool exhausted: ", a.as_str(), "/", m.as_str())
            },
            ResourceError::InsufficientDiskSpace { available, required } => {
                let a = decimal_string(*available);
                let r = decimal_string(*required);
                join5(
                    "Insufficient disk space: ",
                    a.as_str(),
                    " bytes available, ",
                    r.as_str(),
                    " bytes required",
                )
            },
        }
    }
}

impl TransportError {
    /// The text of the error.
    pub open spec fn text(self) -> Seq<char> {
        match self {
            TransportError::Tcp { message } => "TCP transport error: "@ + message@,
            TransportError::Vsock { message } => "VSOCK transport error: "@ + message@,
            TransportError::Tls { message } => "TLS error: "@ + message@,
            TransportError::UnsupportedType { transport_type } => "Unsupported transport type: "@
                + transport_type@,
            TransportError::Configuration { message } => "Transport configuration error: "@
                + message@,
        }
    }

    pub fn to_string(&self) -> (out: String)
        ensures
            out@ == self.text(),
    {
        match self {
            TransportError::Tcp { message } => join2("TCP transport error: ", message.as_str()),
            TransportError::Vsock { message } => join2("VSOCK transport error: ", message.as_str()),
            TransportError::Tls { message } => join2("TLS error: ", message.as_str()),
            TransportError::UnsupportedType { transport_type } => join2(
                "Unsupported transport type: ",
                transport_type.as_str(),
            ),
            TransportError::Configuration { message } => join2(
                "Transport configuration error: ",
                message.as_str(),
            ),
        }
    }
}

impl ValidationError {
    /// The text of the error.
    pub open spec fn text(self) -> Seq<char> {
        match self {
            ValidationError::InvalidInput { field, message } => "Invalid input for "@ + field@
                + ": "@ + message@,
        }
    }

    pub fn to_string(&self) -> (out: String)
        ensures
            out@ == self.text(),
    {
        match self {
            ValidationError::InvalidInput { field, message } => join4(
                "Invalid input for ",
                field.as_str(),
                ": ",
                message.as_str(),
            ),
        }
    }
}

impl Error {
    /// The text of the error: its family, then the text of the cause.
    pub open spec fn text(self) -> Seq<char> {
        match self {
            Error::Network(e) => "Network error: "@ + e.text(),
            Error::Crypto(e) => "Cryptographic error: "@ + e.text(),
            Error::Config(e) => "Configuration error: "@ + e.text(),
            Error::Resource(e) => "Resource error: "@ + e.text(),
            Error::Transport(e) => "Transport error: "@ + e.text(),
            Error::Validation(e) => "Validation error: "@ + e.text(),
            Error::Grpc { code, message } => "gRPC error: "@ + message@,
            Error::Io(cause) => "I/O error: "@ + cause@,
        }
    }

    pub fn to_string(&self) -> (out: String)
        ensures
            out@ == self.text(),
    {
        match self {
            Error::Network(e) => {
                let inner = e.to_string();
                join2("Network error: ", inner.as_str())
            },
            Error::Crypto(e) => {
                let inner = e.to_string();
                join2("Cryptographic error: ", inner.as_str())
            },
            Error::Config(e) => {
                let inner = e.to_string();
                join2("Configuration error: ", inner.as_str())
            },
            Error::Resource(e) => {
                let inner = e.to_string();
                join2("Resource error: ", inner.as_str())
            },
            Error::Transport(e) => {
                let inner = e.to_string();
                join2("Transport error: ", inner.as_str())
            },
            Error::Validation(e) => {
                let inner = e.to_string();
                join2("Validation error: ", inner.as_str())
            },
            Error::Grpc { code, message } => join2("gRPC error: ", message.as_str()),
            Error::Io(cause) => join2("I/O error: ", cause.as_str()),
        }
    }
}

impl From<NetworkError> for Error {
    fn from(e: NetworkError) -> (out: Error) {
        Error::Network(e)
    }
}

impl FromSpecImpl<NetworkError> for Error {
    open spec fn obeys_from_spec() -> bool {
        true
    }

    open spec fn from_spec(e: NetworkError) -> Error {
        Error::Network(e)
    }
}

impl From<CryptoError> for Error {
    fn from(e: CryptoError) -> (out: Error) {
        Error::Crypto(e)
    }
}

impl FromSpecImpl<CryptoError> for Error {
    open spec fn obeys_from_spec() -> bool {
        true
    }

    open spec fn from_spec(e: CryptoError) -> Error {
        Error::Crypto(e)
    }
}

impl From<ConfigError> for Error {
    fn from(e: ConfigError) -> (out: Error) {
        Error::Config(e)
    }
}

impl FromSpecImpl<ConfigError> for Error {
    open spec fn obeys_from_spec() -> bool {
        true
    }

    open spec fn from_spec(e: ConfigError) -> Error {
        Error::Config(e)
    }
}

impl From<ResourceError> for Error {
    fn from(e: ResourceError) -> (out: Error) {
        Error::Resource(e)
    }
}

impl FromSpecImpl<ResourceError> for Error {
    open spec fn obeys_from_spec() -> bool {
        true
    }

    open spec fn from_spec(e: ResourceError) -> Error {
        Error::Resource(e)
    }
}

impl From<TransportError> for Error {
    fn from(e: TransportError) -> (out: Error) {
        Error::Transport(e)
    }
}

impl FromSpecImpl<TransportError> for Error {
    open spec fn obeys_from_spec() -> bool {
        true
    }

    open spec fn from_spec(e: TransportError) -> Error {
        Error::Transport(e)
    }
}

impl From<ValidationError> for Error {
    fn from(e: ValidationError) -> (out: Error) {
        Error::Validation(e)
    }
}

impl FromSpecImpl<ValidationError> for Error {
    open spec fn obeys_from_spec() -> bool {
        true
    }

    open spec fn from_spec(e: ValidationError) -> Error {
        Error::Validation(e)
    }
}

} // verus!
