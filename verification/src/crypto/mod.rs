//! Keys and signatures.

pub mod crypto_keys;
pub mod keys;
pub mod primitives;
pub mod signing;
