//! The adapter's error taxonomy.
//!
//! Every failure of a collaborator is wrapped and passed through unchanged in
//! kind: construction failures become [`ConfigError`], session-establishment
//! failures become [`ConnectionError`], and a failed liveness probe becomes
//! [`ValidationError`]. The adapter performs no local recovery.

use vstd::prelude::*;
use redis_cluster_rs::redis::RedisError;

verus! {

/// A seed descriptor was rejected at construction time.
///
/// Construction is all-or-nothing, so the error names the first offending
/// element; no manager is produced.
#[derive(Debug)]
pub enum ConfigError {
    /// The element at `index` did not parse; `cause` is the resolver's report.
    Malformed { index: usize, cause: RedisError },
    /// The element at `index` parsed, but not to a TCP endpoint, which the
    /// cluster client cannot use as a seed.
    Unsupported { index: usize },
}

impl ConfigError {
    /// The position of the offending element in the input sequence.
    pub fn index(&self) -> (r: usize)
        ensures
            r == match *self {
                ConfigError::Malformed { index, .. } => index,
                ConfigError::Unsupported { index } => index,
            },
    {
        match self {
            ConfigError::Malformed { index, .. } => *index,
            ConfigError::Unsupported { index } => *index,
        }
    }
}

/// A session could not be established: the underlying client reported a
/// failure on opening the client or on obtaining a connection from it.
/// `cause` is the client's report, passed through unchanged.
#[derive(Debug)]
pub struct ConnectionError {
    pub cause: RedisError,
}

/// A liveness probe failed: the connection did not answer the round-trip
/// health check and should be discarded by the pool.
#[derive(Clone, Copy, PartialEq, Eq, Structural, Debug)]
pub enum ValidationError {
    /// The probe's round trip failed at the transport.
    Io,
}

} // verus!
