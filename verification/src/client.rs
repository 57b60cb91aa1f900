//! The decisions of the client: what a request must look like before it is
//! sent, how the channel is opened, probed and reopened, and what a failed
//! call is reported as. The caller dials, probes, waits and calls; this
//! module says which of these comes next.

use crate::config::{ClientConfig, KeyType, RetryConfig, SigningAlgorithm};
use crate::error::{Error, NetworkError, ValidationError};
use crate::proto::{
    DeleteKeyRequest, GenerateKeyRequest, HashAlgorithm, HealthCheckRequest, ListKeysRequest,
    SignRequest, VerifyRequest, MAX_DATA_LEN,
};
use crate::text::{copy_bytes, decimal_digits, decimal_string, join4, join6};
use vstd::prelude::*;

verus! {

/// The status codes of the RPC layer.
#[derive(Debug, Clone, Copy, PartialEq, Eq, Structural)]
pub enum StatusCode {
    Success,
    Cancelled,
    Unknown,
    InvalidArgument,
    DeadlineExceeded,
    NotFound,
    AlreadyExists,
    PermissionDenied,
    ResourceExhausted,
    FailedPrecondition,
    Aborted,
    OutOfRange,
    Unimplemented,
    Internal,
    Unavailable,
    DataLoss,
    Unauthenticated,
}

impl StatusCode {
    /// The description of the code.
    pub open spec fn description(self) -> Seq<char> {
        match self {
            StatusCode::Success => "The operation completed successfully"@,
            StatusCode::Cancelled => "The operation was cancelled"@,
            StatusCode::Unknown => "Unknown error"@,
            StatusCode::InvalidArgument => "Client specified an invalid argument"@,
            StatusCode::DeadlineExceeded => "Deadline expired before operation could complete"@,
            StatusCode::NotFound => "Some requested entity was not found"@,
            StatusCode::AlreadyExists => "Some entity that we attempted to create already exists"@,
            StatusCode::PermissionDenied =>
                "The caller does not have permission to execute the specified operation"@,
            StatusCode::ResourceExhausted => "Some resource has been exhausted"@,
            StatusCode::FailedPrecondition =>
                "The system is not in a state required for the operation's execution"@,
            StatusCode::Aborted => "The operation was aborted"@,
            StatusCode::OutOfRange => "Operation was attempted past the valid range"@,
            StatusCode::Unimplemented => "Operation is not implemented or not supported"@,
            StatusCode::Internal => "Internal error"@,
            StatusCode::Unavailable => "The service is currently unavailable"@,
            StatusCode::DataLoss => "Unrecoverable data loss or corruption"@,
            StatusCode::Unauthenticated =>
                "The request does not have valid authentication credentials"@,
        }
    }

    pub fn as_str(&self) -> (out: &'static str)
        ensures
            out@ == self.description(),
    {
        match self {
            StatusCode::Success => "The operation completed successfully",
            StatusCode::Cancelled => "The operation was cancelled",
            StatusCode::Unknown => "Unknown error",
            StatusCode::InvalidArgument => "Client specified an invalid argument",
            StatusCode::DeadlineExceeded => "Deadline expired before operation could complete",
            StatusCode::NotFound => "Some requested entity was not found",
            StatusCode::AlreadyExists => "Some entity that we attempted to create already exists",
            StatusCode::PermissionDenied =>
                "The caller does not have permission to execute the specified operation",
            StatusCode::ResourceExhausted => "Some resource has been exhausted",
            StatusCode::FailedPrecondition =>
                "The system is not in a state required for the operation's execution",
            StatusCode::Aborted => "The operation was aborted",
            StatusCode::OutOfRange => "Operation was attempted past the valid range",
            StatusCode::Unimplemented => "Operation is not implemented or not supported",
            StatusCode::Internal => "Internal error",
            StatusCode::Unavailable => "The service is currently unavailable",
            StatusCode::DataLoss => "Unrecoverable data loss or corruption",
            StatusCode::Unauthenticated =>
                "The request does not have valid authentication credentials",
        }
    }
}

/// The key type of the wire schema for a key type.
pub open spec fn wire_key_type(key_type: KeyType) -> crate::proto::KeyType {
    match key_type {
        KeyType::Rsa2048 => crate::proto::KeyType::Rsa2048,
        KeyType::Rsa3072 => crate::proto::KeyType::Rsa3072,
        KeyType::Rsa4096 => crate::proto::KeyType::Rsa4096,
        KeyType::EccP256 => crate::proto::KeyType::EccP256,
        KeyType::EccP384 => crate::proto::KeyType::EccP384,
        KeyType::EccP521 => crate::proto::KeyType::EccP521,
    }
}

/// The signature scheme of the wire schema for a signature scheme.
pub open spec fn wire_algorithm(algorithm: SigningAlgorithm) -> crate::proto::SigningAlgorithm {
    match algorithm {
        SigningAlgorithm::RsaPssSha256 => crate::proto::SigningAlgorithm::RsaPssSha256,
        SigningAlgorithm::RsaPssSha384 => crate::proto::SigningAlgorithm::RsaPssSha384,
        SigningAlgorithm::RsaPssSha512 => crate::proto::SigningAlgorithm::RsaPssSha512,
        SigningAlgorithm::RsaPkcs1v15Sha256 => crate::proto::SigningAlgorithm::RsaPkcs1Sha256,
        SigningAlgorithm::RsaPkcs1v15Sha384 => crate::proto::SigningAlgorithm::RsaPkcs1Sha384,
        SigningAlgorithm::RsaPkcs1v15Sha512 => crate::proto::SigningAlgorithm::RsaPkcs1Sha512,
        SigningAlgorithm::EcdsaP256Sha256 => crate::proto::SigningAlgorithm::EcdsaSha256,
        SigningAlgorithm::EcdsaP384Sha384 => crate::proto::SigningAlgorithm::EcdsaSha384,
        SigningAlgorithm::EcdsaP521Sha512 => crate::proto::SigningAlgorithm::EcdsaSha512,
    }
}

pub fn convert_key_type(key_type: KeyType) -> (wire: crate::proto::KeyType)
    ensures
        wire == wire_key_type(key_type),
{
    match key_type {
        KeyType::Rsa2048 => crate::proto::KeyType::Rsa2048,
        KeyType::Rsa3072 => crate::proto::KeyType::Rsa3072,
        KeyType::Rsa4096 => crate::proto::KeyType::Rsa4096,
        KeyType::EccP256 => crate::proto::KeyType::EccP256,
        KeyType::EccP384 => crate::proto::KeyType::EccP384,
        KeyType::EccP521 => crate::proto::KeyType::EccP521,
    }
}

pub fn convert_signing_algorithm(algorithm: SigningAlgorithm) -> (wire:
    crate::proto::SigningAlgorithm)
    ensures
        wire == wire_algorithm(algorithm),
{
    match algorithm {
        SigningAlgorithm::RsaPssSha256 => crate::proto::SigningAlgorithm::RsaPssSha256,
        SigningAlgorithm::RsaPssSha384 => crate::proto::SigningAlgorithm::RsaPssSha384,
        SigningAlgorithm::RsaPssSha512 => crate::proto::SigningAlgorithm::RsaPssSha512,
        SigningAlgorithm::RsaPkcs1v15Sha256 => crate::proto::SigningAlgorithm::RsaPkcs1Sha256,
        SigningAlgorithm::RsaPkcs1v15Sha384 => crate::proto::SigningAlgorithm::RsaPkcs1Sha384,
        SigningAlgorithm::RsaPkcs1v15Sha512 => crate::proto::SigningAlgorithm::RsaPkcs1Sha512,
        SigningAlgorithm::EcdsaP256Sha256 => crate::proto::SigningAlgorithm::EcdsaSha256,
        SigningAlgorithm::EcdsaP384Sha384 => crate::proto::SigningAlgorithm::EcdsaSha384,
        SigningAlgorithm::EcdsaP521Sha512 => crate::proto::SigningAlgorithm::EcdsaSha512,
    }
}

/// The hash function of the wire schema is sent as it is.
pub fn convert_hash_algorithm(hash_algorithm: HashAlgorithm) -> (wire: HashAlgorithm)
    ensures
        wire == hash_algorithm,
{
    hash_algorithm
}

/// Whether `error` refuses an input: the field and the message.
pub open spec fn is_invalid_input(error: Error, field: Seq<char>, message: Seq<char>) -> bool {
    error matches Error::Validation(ValidationError::InvalidInput { field: f, message: m }) && f@
        == field && m@ == message
}

fn invalid_input(field: &str, message: &str) -> (error: Error)
    ensures
        is_invalid_input(error, field@, message@),
{
    Error::Validation(
        ValidationError::InvalidInput {
            field: String::from_str(field),
            message: String::from_str(message),
        },
    )
}

/// What a request to sign is checked for before anything is sent: data that
/// is not empty and not larger than the maximum, then the key identifier.
pub open spec fn sign_input_fault(data: Seq<u8>, key_id: Seq<char>) -> Option<
    (Seq<char>, Seq<char>),
> {
    if data.len() == 0 {
        Some(("data"@, "Data cannot be empty"@))
    } else if data.len() > MAX_DATA_LEN {
        Some(("data"@, "Data size exceeds maximum limit of 1MB"@))
    } else if key_id.len() == 0 {
        Some(("key_id"@, "Key ID cannot be empty"@))
    } else {
        None
    }
}

/// What a request to verify is checked for before anything is sent: data
/// that is not empty and not larger than the maximum, then the signature,
/// then the key identifier.
pub open spec fn verify_input_fault(data: Seq<u8>, signature: Seq<u8>, key_id: Seq<char>) -> Option<
    (Seq<char>, Seq<char>),
> {
    if data.len() == 0 {
        Some(("data"@, "Data cannot be empty"@))
    } else if data.len() > MAX_DATA_LEN {
        Some(("data"@, "Data size exceeds maximum limit of 1MB"@))
    } else if signature.len() == 0 {
        Some(("signature"@, "Signature cannot be empty"@))
    } else if key_id.len() == 0 {
        Some(("key_id"@, "Key ID cannot be empty"@))
    } else {
        None
    }
}

/// What a failed call is reported as, by the status of the RPC layer.
pub open spec fn is_call_error(
    error: Error,
    code: StatusCode,
    message: Seq<char>,
    server_address: Seq<char>,
    timeout_ms: u64,
) -> bool {
    match code {
        StatusCode::Unavailable => error matches Error::Network(
            NetworkError::ConnectionLost { reason },
        ) && reason@ == "Connection to "@ + server_address + " unavailable: "@ + message,
        StatusCode::DeadlineExceeded => error matches Error::Network(
            NetworkError::ConnectionTimeout { timeout_ms: t },
        ) && t == timeout_ms,
        StatusCode::InvalidArgument => error matches Error::Validation(
            ValidationError::InvalidInput { field, message: m },
        ) && field@ == "request"@ && m@ == message,
        _ => error matches Error::Network(NetworkError::ConnectionFailed { message: m }) && m@
            == "gRPC error for "@ + server_address + ": "@ + code.description() + " - "@
            + message,
    }
}

/// The error for a call that failed with a status of the RPC layer.
pub fn convert_grpc_error(code: StatusCode, message: &str, server_address: &str, timeout_ms: u64) -> (error:
    Error)
    ensures
        is_call_error(error, code, message@, server_address@, timeout_ms),
{
    match code {
        StatusCode::Unavailable => Error::Network(
            NetworkError::ConnectionLost {
                reason: join4("Connection to ", server_address, " unavailable: ", message),
            },
        ),
        StatusCode::DeadlineExceeded => Error::Network(
            NetworkError::ConnectionTimeout { timeout_ms },
        ),
        StatusCode::InvalidArgument => Error::Validation(
            ValidationError::InvalidInput {
                field: String::from_str("request"),
                message: String::from_str(message),
            },
        ),
        _ => Error::Network(
            NetworkError::ConnectionFailed {
                message: join6(
                    "gRPC error for ",
                    server_address,
                    ": ",
                    code.as_str(),
                    " - ",
                    message,
                ),
            },
        ),
    }
}

/// The delay before the retry with number `retry`, counted from zero, not
/// yet capped: the initial delay, multiplied `retry` times by the multiplier
/// in thousandths, rounded down each time.
pub open spec fn scaled_delay(initial_ms: nat, multiplier_milli: nat, retry: nat) -> nat
    decreases retry,
{
    if retry == 0 {
        initial_ms
    } else {
        scaled_delay(initial_ms, multiplier_milli, (retry - 1) as nat) * multiplier_milli / 1000
    }
}

/// The delay before the retry with number `retry`, counted from zero: the
/// scaled delay, capped at the maximum delay.
pub open spec fn backoff_delay(policy: RetryConfig, retry: nat) -> nat {
    let scaled = scaled_delay(
        policy.initial_delay_ms as nat,
        policy.backoff_multiplier_milli as nat,
        retry,
    );
    if scaled <= policy.max_delay_ms {
        scaled
    } else {
        policy.max_delay_ms as nat
    }
}

/// With a multiplier of one or more, the scaled delay never shrinks.
pub proof fn lemma_scaled_delay_grows(initial_ms: nat, multiplier_milli: nat, from: nat, to: nat)
    requires
        multiplier_milli >= 1000,
        from <= to,
    ensures
        scaled_delay(initial_ms, multiplier_milli, from) <= scaled_delay(
            initial_ms,
            multiplier_milli,
            to,
        ),
    decreases to,
{
    if from < to {
        lemma_scaled_delay_grows(initial_ms, multiplier_milli, from, (to - 1) as nat);
        let before = scaled_delay(initial_ms, multiplier_milli, (to - 1) as nat);
        assert(before * multiplier_milli / 1000 >= before) by (nonlinear_arith)
            requires
                multiplier_milli >= 1000,
        ;
    }
}

/// With a multiplier of one or less, the scaled delay never exceeds the
/// initial delay.
pub proof fn lemma_scaled_delay_bounded(initial_ms: nat, multiplier_milli: nat, retry: nat)
    requires
        multiplier_milli <= 1000,
    ensures
        scaled_delay(initial_ms, multiplier_milli, retry) <= initial_ms,
    decreases retry,
{
    if retry > 0 {
        lemma_scaled_delay_bounded(initial_ms, multiplier_milli, (retry - 1) as nat);
        let before = scaled_delay(initial_ms, multiplier_milli, (retry - 1) as nat);
        assert(before * multiplier_milli / 1000 <= before) by (nonlinear_arith)
            requires
                multiplier_milli <= 1000,
        ;
    }
}

/// With a multiplier of one or more, a later retry never waits less than an
/// earlier one, and no retry waits longer than the maximum delay.
pub proof fn lemma_backoff_never_shrinks(policy: RetryConfig, earlier: nat, later: nat)
    requires
        policy.backoff_multiplier_milli >= 1000,
        earlier <= later,
    ensures
        backoff_delay(policy, earlier) <= backoff_delay(policy, later) <= policy.max_delay_ms,
{
    lemma_scaled_delay_grows(
        policy.initial_delay_ms as nat,
        policy.backoff_multiplier_milli as nat,
        earlier,
        later,
    );
}

/// The delay in milliseconds before the retry with number `retry`, counted
/// from zero.
pub fn backoff_delay_ms(policy: &RetryConfig, retry: u32) -> (delay: u64)
    ensures
        delay == backoff_delay(*policy, retry as nat),
        delay <= policy.max_delay_ms,
{
    let ghost initial = policy.initial_delay_ms as nat;
    let ghost milli = policy.backoff_multiplier_milli as nat;
    let mut current: u64 = policy.initial_delay_ms;
    let mut done: u32 = 0;
    while done < retry
        invariant
            done <= retry,
            initial == policy.initial_delay_ms,
            milli == policy.backoff_multiplier_milli,
            current == scaled_delay(initial, milli, done as nat),
        decreases retry - done,
    {
        assert(current as u128 * policy.backoff_multiplier_milli as u128 <= u128::MAX)
            by (nonlinear_arith)
            requires
                current <= u64::MAX,
                policy.backoff_multiplier_milli <= u32::MAX,
        ;
        let product: u128 = (current as u128) * (policy.backoff_multiplier_milli as u128);
        let next: u128 = product / 1000;
        if policy.backoff_multiplier_milli >= 1000 {
            if next > policy.max_delay_ms as u128 {
                proof {
                    lemma_scaled_delay_grows(initial, milli, (done + 1) as nat, retry as nat);
                }
                return policy.max_delay_ms;
            }
        } else {
            assert(current as nat * milli / 1000 <= current as nat) by (nonlinear_arith)
                requires
                    milli <= 1000,
            ;
        }
        current = next as u64;
        done = done + 1;
    }
    if current > policy.max_delay_ms {
        policy.max_delay_ms
    } else {
        current
    }
}

/// Whether the client has a channel.
#[derive(Debug, Clone, Copy, PartialEq, Eq, Structural)]
pub enum ConnectionState {
    Disconnected,
    Connecting,
    Connected,
}

/// The state of the client between two steps: whether it has a channel, and
/// how many probes have failed since the present call began.
#[derive(Debug, Clone, Copy, PartialEq, Eq, Structural)]
pub struct RetryState {
    pub connection: ConnectionState,
    pub attempts: u32,
}

/// What happened to the step that the client was told to take.
#[derive(Debug, Clone, Copy, PartialEq, Eq, Structural)]
pub enum EventKind {
    /// The channel was opened.
    Dialed,
    /// The channel could not be opened.
    DialFailed,
    /// The health check was answered.
    ProbeSucceeded,
    /// The health check failed.
    ProbeFailed,
    /// The delay has passed.
    Waited,
}

/// What the client does next.
#[derive(Debug, Clone, Copy, PartialEq, Eq, Structural)]
pub enum Decision {
    /// Open the channel.
    Dial,
    /// Send a health check.
    Probe,
    /// Let the delay pass, then drop the channel.
    Wait { delay_ms: u64 },
    /// The channel is ready: make the call.
    Call,
    /// Give up: the channel could not be opened.
    DialFailed,
    /// Give up: this many probes have failed.
    GiveUp { attempts: u32 },
}

/// What the client does with a channel in hand: it probes while the policy
/// asks for it and leaves attempts, and calls otherwise.
pub open spec fn ready(policy: RetryConfig, state: RetryState) -> (RetryState, Decision) {
    let next = RetryState { connection: ConnectionState::Connected, attempts: state.attempts };
    if policy.enabled && state.attempts < policy.max_attempts {
        (next, Decision::Probe)
    } else {
        (next, Decision::Call)
    }
}

/// What the client does when a call begins: without a channel it dials, with
/// one it goes on as `ready` says. The count of failed probes starts anew.
pub open spec fn begin(policy: RetryConfig, state: RetryState) -> (RetryState, Decision) {
    if state.connection == ConnectionState::Connected {
        ready(policy, RetryState { connection: ConnectionState::Connected, attempts: 0 })
    } else {
        (RetryState { connection: ConnectionState::Connecting, attempts: 0 }, Decision::Dial)
    }
}

/// The count of failed probes after one more.
pub open spec fn one_more(attempts: u32) -> u32 {
    if attempts < u32::MAX {
        (attempts + 1) as u32
    } else {
        attempts
    }
}

/// What the client does after an event.
///
/// A dialed channel is used as `ready` says. A failed dial ends the call. An
/// answered probe lets the call be made. A failed probe is counted: at the
/// maximum the call ends, below it the client waits for the backoff delay of
/// this retry. After the wait the channel is dropped and dialed again.
pub open spec fn react(policy: RetryConfig, state: RetryState, event: EventKind) -> (
    RetryState,
    Decision,
) {
    match event {
        EventKind::Dialed => ready(policy, state),
        EventKind::DialFailed => (
            RetryState { connection: ConnectionState::Disconnected, attempts: state.attempts },
            Decision::DialFailed,
        ),
        EventKind::ProbeSucceeded => (state, Decision::Call),
        EventKind::ProbeFailed => {
            let attempts = one_more(state.attempts);
            let next = RetryState { connection: state.connection, attempts };
            if attempts >= policy.max_attempts {
                (next, Decision::GiveUp { attempts })
            } else {
                (
                    next,
                    Decision::Wait {
                        delay_ms: backoff_delay(policy, (attempts - 1) as nat) as u64,
                    },
                )
            }
        },
        EventKind::Waited => (
            RetryState { connection: ConnectionState::Connecting, attempts: state.attempts },
            Decision::Dial,
        ),
    }
}

/// The state without a channel.
pub open spec fn disconnected(state: RetryState) -> RetryState {
    RetryState { connection: ConnectionState::Disconnected, attempts: state.attempts }
}

/// Where the client stands when a call has begun with a channel in hand and
/// the server has refused the first `refusals` health checks: after each
/// refusal the client waits, drops the channel and dials again, and the dial
/// succeeds.
pub open spec fn after_refusals(policy: RetryConfig, refusals: nat) -> (RetryState, Decision)
    decreases refusals,
{
    if refusals == 0 {
        begin(policy, RetryState { connection: ConnectionState::Connected, attempts: 0 })
    } else {
        let (state, decision) = after_refusals(policy, (refusals - 1) as nat);
        if decision == Decision::Probe {
            let (failed, then) = react(policy, state, EventKind::ProbeFailed);
            if then is Wait {
                let (waited, _) = react(policy, failed, EventKind::Waited);
                react(policy, waited, EventKind::Dialed)
            } else {
                (failed, then)
            }
        } else {
            (state, decision)
        }
    }
}

/// With retries enabled, a server that refuses fewer health checks than the
/// maximum number of attempts is probed once more, and when it answers, the
/// call is made.
pub proof fn lemma_retry_reaches_the_call(policy: RetryConfig, refusals: nat)
    requires
        policy.enabled,
        refusals < policy.max_attempts,
    ensures
        after_refusals(policy, refusals).1 == Decision::Probe,
        after_refusals(policy, refusals).0.attempts == refusals,
        react(policy, after_refusals(policy, refusals).0, EventKind::ProbeSucceeded).1
            == Decision::Call,
    decreases refusals,
{
    if refusals > 0 {
        lemma_retry_reaches_the_call(policy, (refusals - 1) as nat);
    }
}

/// With retries enabled, a server that refuses every health check makes the
/// client give up after exactly the maximum number of attempts.
pub proof fn lemma_retry_gives_up(policy: RetryConfig)
    requires
        policy.enabled,
        policy.max_attempts >= 1,
    ensures
        after_refusals(policy, policy.max_attempts as nat).1 == (Decision::GiveUp {
            attempts: policy.max_attempts,
        }),
{
    lemma_retry_reaches_the_call(policy, (policy.max_attempts - 1) as nat);
}

/// Disconnecting twice is disconnecting once.
pub proof fn lemma_disconnect_idempotent(state: RetryState)
    ensures
        disconnected(disconnected(state)) == disconnected(state),
        disconnected(state).connection == ConnectionState::Disconnected,
{
}

/// What happened to the step that the client was told to take, with the
/// cause of a failure.
#[derive(Debug)]
pub enum ClientEvent {
    Dialed,
    DialFailed(String),
    ProbeSucceeded,
    ProbeFailed(String),
    Waited,
}

impl ClientEvent {
    pub open spec fn kind(self) -> EventKind {
        match self {
            ClientEvent::Dialed => EventKind::Dialed,
            ClientEvent::DialFailed(_) => EventKind::DialFailed,
            ClientEvent::ProbeSucceeded => EventKind::ProbeSucceeded,
            ClientEvent::ProbeFailed(_) => EventKind::ProbeFailed,
            ClientEvent::Waited => EventKind::Waited,
        }
    }

    /// The cause of a failure, and the empty text for every other event.
    pub open spec fn cause(self) -> Seq<char> {
        match self {
            ClientEvent::DialFailed(cause) => cause@,
            ClientEvent::ProbeFailed(cause) => cause@,
            _ => Seq::empty(),
        }
    }
}

/// The next step of the client, for its caller to take.
#[derive(Debug)]
pub enum Step {
    /// Open the channel, and report `Dialed` or `DialFailed`.
    Dial,
    /// Send a health check, and report `ProbeSucceeded` or `ProbeFailed`.
    Probe,
    /// Sleep for the delay, and report `Waited`.
    Wait { delay_ms: u64 },
    /// Make the call under this timeout.
    Call { timeout_ms: u64 },
    /// Return this error.
    Fail(Error),
}

/// Whether `step` carries out `decision` for a client of the server at
/// `server_address`, with the call timeout `timeout_ms`, after an event with
/// the cause `cause`.
pub open spec fn carries_out(
    step: Step,
    decision: Decision,
    server_address: Seq<char>,
    timeout_ms: u64,
    cause: Seq<char>,
) -> bool {
    match decision {
        Decision::Dial => step is Dial,
        Decision::Probe => step is Probe,
        Decision::Wait { delay_ms } => step matches Step::Wait { delay_ms: d } && d == delay_ms,
        Decision::Call => step matches Step::Call { timeout_ms: t } && t == timeout_ms,
        Decision::DialFailed => step matches Step::Fail(
            Error::Network(NetworkError::ConnectionFailed { message }),
        ) && message@ == "Failed to connect to "@ + server_address + ": "@ + cause,
        Decision::GiveUp { attempts } => step matches Step::Fail(
            Error::Network(NetworkError::ConnectionFailed { message }),
        ) && message@ == "Failed to connect to "@ + server_address + " after "@ + decimal_digits(
            attempts as nat,
        ) + " attempts: "@ + cause,
    }
}

/// The client of the signing service: its configuration, and where it stands
/// with its channel.
#[derive(Debug)]
pub struct GrpcSigningClient {
    config: ClientConfig,
    state: RetryState,
}

impl GrpcSigningClient {
    /// The retry policy of the client.
    pub closed spec fn policy(&self) -> RetryConfig {
        self.config.retry
    }

    /// Where the client stands with its channel.
    pub closed spec fn retry_state(&self) -> RetryState {
        self.state
    }

    /// The address of the server.
    pub closed spec fn server_address(&self) -> Seq<char> {
        self.config.server_address@
    }

    /// The timeout of every call, in milliseconds: the idle timeout of the
    /// connection pool.
    pub closed spec fn timeout_ms(&self) -> u64 {
        self.config.connection_pool.idle_timeout_ms
    }

    /// A client without a channel.
    pub fn new(config: ClientConfig) -> (out: Self)
        ensures
            out.policy() == config.retry,
            out.server_address() == config.server_address@,
            out.timeout_ms() == config.connection_pool.idle_timeout_ms,
            out.retry_state() == (RetryState {
                connection: ConnectionState::Disconnected,
                attempts: 0,
            }),
    {
        GrpcSigningClient {
            config,
            state: RetryState { connection: ConnectionState::Disconnected, attempts: 0 },
        }
    }

    pub fn connection_state(&self) -> (state: ConnectionState)
        ensures
            state == self.retry_state().connection,
    {
        self.state.connection
    }

    pub fn is_connected(&self) -> (yes: bool)
        ensures
            yes == (self.retry_state().connection == ConnectionState::Connected),
    {
        self.state.connection == ConnectionState::Connected
    }

    /// The number of probes that have failed since the present call began.
    pub fn attempts(&self) -> (attempts: u32)
        ensures
            attempts == self.retry_state().attempts,
    {
        self.state.attempts
    }

    /// The timeout of every call, in milliseconds.
    pub fn call_timeout_ms(&self) -> (timeout_ms: u64)
        ensures
            timeout_ms == self.timeout_ms(),
    {
        self.config.connection_pool.idle_timeout_ms
    }

    fn step_for(&self, decision: Decision, cause: &str) -> (step: Step)
        ensures
            carries_out(step, decision, self.server_address(), self.timeout_ms(), cause@),
    {
        match decision {
            Decision::Dial => Step::Dial,
            Decision::Probe => Step::Probe,
            Decision::Wait { delay_ms } => Step::Wait { delay_ms },
            Decision::Call => Step::Call {
                timeout_ms: self.config.connection_pool.idle_timeout_ms,
            },
            Decision::DialFailed => Step::Fail(
                Error::Network(
                    NetworkError::ConnectionFailed {
                        message: join4(
                            "Failed to connect to ",
                            self.config.server_address.as_str(),
                            ": ",
                            cause,
                        ),
                    },
                ),
            ),
            Decision::GiveUp { attempts } => {
                let count = decimal_string(attempts as u64);
                Step::Fail(
                    Error::Network(
                        NetworkError::ConnectionFailed {
                            message: join6(
                                "Failed to connect to ",
                                self.config.server_address.as_str(),
                                " after ",
                                count.as_str(),
                                " attempts: ",
                                cause,
                            ),
                        },
                    ),
                )
            },
        }
    }

    fn channel_ready(&mut self) -> (decision: Decision)
        ensures
            (final(self).retry_state(), decision) == ready(old(self).policy(), old(self).retry_state()),
            final(self).policy() == old(self).policy(),
            final(self).server_address() == old(self).server_address(),
            final(self).timeout_ms() == old(self).timeout_ms(),
    {
        self.state.connection = ConnectionState::Connected;
        if self.config.retry.enabled && self.state.attempts < self.config.retry.max_attempts {
            Decision::Probe
        } else {
            Decision::Call
        }
    }

    /// Begins a call, and says what to do first.
    pub fn begin_call(&mut self) -> (step: Step)
        ensures
            final(self).policy() == old(self).policy(),
            final(self).server_address() == old(self).server_address(),
            final(self).timeout_ms() == old(self).timeout_ms(),
            final(self).retry_state() == begin(old(self).policy(), old(self).retry_state()).0,
            carries_out(
                step,
                begin(old(self).policy(), old(self).retry_state()).1,
                old(self).server_address(),
                old(self).timeout_ms(),
                Seq::empty(),
            ),
    {
        self.state.attempts = 0;
        let decision = if self.state.connection == ConnectionState::Connected {
            self.channel_ready()
        } else {
            self.state.connection = ConnectionState::Connecting;
            Decision::Dial
        };
        self.step_for(decision, "")
    }

    /// Takes in what happened to the last step, and says what to do next.
    pub fn on_event(&mut self, event: ClientEvent) -> (step: Step)
        ensures
            final(self).policy() == old(self).policy(),
            final(self).server_address() == old(self).server_address(),
            final(self).timeout_ms() == old(self).timeout_ms(),
            final(self).retry_state() == react(
                old(self).policy(),
                old(self).retry_state(),
                event.kind(),
            ).0,
            carries_out(
                step,
                react(old(self).policy(), old(self).retry_state(), event.kind()).1,
                old(self).server_address(),
                old(self).timeout_ms(),
                event.cause(),
            ),
    {
        match event {
            ClientEvent::Dialed => {
                let decision = self.channel_ready();
                self.step_for(decision, "")
            },
            ClientEvent::DialFailed(cause) => {
                self.state.connection = ConnectionState::Disconnected;
                self.step_for(Decision::DialFailed, cause.as_str())
            },
            ClientEvent::ProbeSucceeded => self.step_for(Decision::Call, ""),
            ClientEvent::ProbeFailed(cause) => {
                if self.state.attempts < u32::MAX {
                    self.state.attempts = self.state.attempts + 1;
                }
                let attempts = self.state.attempts;
                if attempts >= self.config.retry.max_attempts {
                    self.step_for(Decision::GiveUp { attempts }, cause.as_str())
                } else {
                    let delay_ms = backoff_delay_ms(&self.config.retry, attempts - 1);
                    self.step_for(Decision::Wait { delay_ms }, cause.as_str())
                }
            },
            ClientEvent::Waited => {
                self.state.connection = ConnectionState::Connecting;
                self.step_for(Decision::Dial, "")
            },
        }
    }

    /// Drops the channel. Without a channel nothing changes.
    pub fn disconnect(&mut self)
        ensures
            final(self).policy() == old(self).policy(),
            final(self).server_address() == old(self).server_address(),
            final(self).timeout_ms() == old(self).timeout_ms(),
            final(self).retry_state() == disconnected(old(self).retry_state()),
    {
        self.state.connection = ConnectionState::Disconnected;
    }

    /// The error of a call that did not end within the timeout.
    pub fn timed_out(&self) -> (error: Error)
        ensures
            error matches Error::Network(NetworkError::ConnectionTimeout { timeout_ms })
                && timeout_ms == self.timeout_ms(),
    {
        Error::Network(
            NetworkError::ConnectionTimeout {
                timeout_ms: self.config.connection_pool.idle_timeout_ms,
            },
        )
    }

    /// The error of a call that failed with a status of the RPC layer.
    pub fn call_failed(&self, code: StatusCode, message: &str) -> (error: Error)
        ensures
            is_call_error(error, code, message@, self.server_address(), self.timeout_ms()),
    {
        convert_grpc_error(
            code,
            message,
            self.config.server_address.as_str(),
            self.config.connection_pool.idle_timeout_ms,
        )
    }

    /// The request to sign `data` with the key `key_id`. Empty data, data
    /// beyond the maximum and an empty key identifier are refused, in this
    /// order, before anything is sent.
    pub fn sign_request(
        data: &[u8],
        key_id: &str,
        key_type: KeyType,
        algorithm: SigningAlgorithm,
    ) -> (made: Result<SignRequest, Error>)
        ensures
            match sign_input_fault(data@, key_id@) {
                Some((field, message)) => made matches Err(e) && is_invalid_input(e, field, message),
                None => made matches Ok(request) && request.data@ == data@ && request.key_id@
                    == key_id@ && request.key_type == wire_key_type(key_type).number()
                    && request.algorithm == wire_algorithm(algorithm).number(),
            },
    {
        if data.len() == 0 {
            return Err(invalid_input("data", "Data cannot be empty"));
        }
        if data.len() > MAX_DATA_LEN {
            return Err(invalid_input("data", "Data size exceeds maximum limit of 1MB"));
        }
        if key_id.unicode_len() == 0 {
            return Err(invalid_input("key_id", "Key ID cannot be empty"));
        }
        Ok(
            SignRequest {
                data: copy_bytes(data),
                key_type: convert_key_type(key_type).as_i32(),
                algorithm: convert_signing_algorithm(algorithm).as_i32(),
                key_id: String::from_str(key_id),
            },
        )
    }

    /// The request to verify `signature` over `data` with the key `key_id`.
    /// Empty data, data beyond the maximum, an empty signature and an empty
    /// key identifier are refused, in this order, before anything is sent.
    pub fn verify_request(
        data: &[u8],
        signature: &[u8],
        key_id: &str,
        algorithm: SigningAlgorithm,
        hash_algorithm: HashAlgorithm,
    ) -> (made: Result<VerifyRequest, Error>)
        ensures
            match verify_input_fault(data@, signature@, key_id@) {
                Some((field, message)) => made matches Err(e) && is_invalid_input(e, field, message),
                None => made matches Ok(request) && request.data@ == data@ && request.signature@
                    == signature@ && request.key_id@ == key_id@ && request.algorithm
                    == wire_algorithm(algorithm).number() && request.hash_algorithm
                    == hash_algorithm.number(),
            },
    {
        if data.len() == 0 {
            return Err(invalid_input("data", "Data cannot be empty"));
        }
        if data.len() > MAX_DATA_LEN {
            return Err(invalid_input("data", "Data size exceeds maximum limit of 1MB"));
        }
        if signature.len() == 0 {
            return Err(invalid_input("signature", "Signature cannot be empty"));
        }
        if key_id.unicode_len() == 0 {
            return Err(invalid_input("key_id", "Key ID cannot be empty"));
        }
        Ok(
            VerifyRequest {
                data: copy_bytes(data),
                signature: copy_bytes(signature),
                key_id: String::from_str(key_id),
                algorithm: convert_signing_algorithm(algorithm).as_i32(),
                hash_algorithm: convert_hash_algorithm(hash_algorithm).as_i32(),
            },
        )
    }

    /// The request to generate a key pair.
    pub fn generate_key_request(key_id: &str, key_type: KeyType, description: &str) -> (request:
        GenerateKeyRequest)
        ensures
            request.key_id@ == key_id@,
            request.key_type == wire_key_type(key_type).number(),
            request.description@ == description@,
    {
        GenerateKeyRequest {
            key_id: String::from_str(key_id),
            key_type: convert_key_type(key_type).as_i32(),
            description: String::from_str(description),
        }
    }

    /// The request to list keys, with the filters that are given.
    pub fn list_keys_request(key_type_filter: Option<KeyType>, active_only: Option<bool>) -> (request:
        ListKeysRequest)
        ensures
            request.active_only == active_only,
            request.key_type_filter == match key_type_filter {
                Some(key_type) => Some(wire_key_type(key_type).number()),
                None => None,
            },
    {
        ListKeysRequest {
            key_type_filter: match key_type_filter {
                Some(key_type) => Some(convert_key_type(key_type).as_i32()),
                None => None,
            },
            active_only,
        }
    }

    /// The request to delete the key `key_id`. An empty key identifier is
    /// refused before anything is sent.
    pub fn delete_key_request(key_id: &str) -> (made: Result<DeleteKeyRequest, Error>)
        ensures
            if key_id@.len() == 0 {
                made matches Err(e) && is_invalid_input(e, "key_id"@, "Key ID cannot be empty"@)
            } else {
                made matches Ok(request) && request.key_id@ == key_id@
            },
    {
        if key_id.unicode_len() == 0 {
            return Err(invalid_input("key_id", "Key ID cannot be empty"));
        }
        Ok(DeleteKeyRequest { key_id: String::from_str(key_id) })
    }

    /// The request for the health of `service`, or of the signing service
    /// where none is named.
    pub fn health_check_request(service: Option<&str>) -> (request: HealthCheckRequest)
        ensures
            request.service@ == match service {
                Some(name) => name@,
                None => "signing"@,
            },
    {
        match service {
            Some(name) => HealthCheckRequest { service: String::from_str(name) },
            None => HealthCheckRequest { service: String::from_str("signing") },
        }
    }
}

} // verus!
