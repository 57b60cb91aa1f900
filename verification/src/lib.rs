//! Signing over RPC: addresses and transports, key management, signature
//! dispatch, and the decisions of the client and the server around them.

use vstd::prelude::*;

pub mod benchmarks;
pub mod client;
pub mod config;
pub mod crypto;
pub mod error;
pub mod hex;
pub mod ipv6;
pub mod proto;
pub mod server;
pub mod text;
pub mod transport;
pub mod transport_channel;

pub use crate::crypto::crypto_keys::CryptoKeys;

verus! {

/// The address of the server where none is configured.
pub const DEFAULT_SERVER_ADDR: &'static str = "127.0.0.1:50051";

/// The log level where none is configured.
pub const DEFAULT_LOG_LEVEL: &'static str = "info";

/// The timestamp for a reading of the system clock in milliseconds since the
/// Unix epoch: the reading where it fits, the largest timestamp beyond that,
/// and zero where the clock stands before the epoch.
pub open spec fn timestamp_of(reading: Option<u128>) -> i64 {
    match reading {
        Some(millis) => if millis <= i64::MAX as u128 {
            millis as i64
        } else {
            i64::MAX
        },
        None => 0,
    }
}

/// The timestamp for a reading of the system clock.
pub fn timestamp_from(reading: Option<u128>) -> (timestamp: i64)
    ensures
        timestamp == timestamp_of(reading),
        timestamp >= 0,
{
    match reading {
        Some(millis) => if millis <= i64::MAX as u128 {
            millis as i64
        } else {
            i64::MAX
        },
        None => 0,
    }
}

/// The present time in milliseconds since the Unix epoch, and zero where
/// the system clock stands before the epoch.
pub fn current_timestamp_millis() -> (timestamp: i64)
    ensures
        timestamp >= 0,
{
    timestamp_from(crate::crypto::primitives::unix_millis())
}

} // verus!
