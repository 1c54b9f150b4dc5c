//! How the store reaches its database: the security mode that a connection
//! string asks for, the TLS trust policy that the mode selects, and the plan
//! by which the pool establishes its physical connections.
//!
//! SECURITY: every encrypted mode selects the *permissive* policy, under which
//! the certificate chain of the server is not validated. This is a deliberate
//! trade-off for hosting providers whose chains do not validate; it gives up
//! the protection against an impostor server. The signatures of the handshake
//! are still verified under both policies.

use crate::errors::StoreError;
use std::str::FromStr;
use vstd::prelude::*;

verus! {

/// The security mode that a connection string asks for.
#[derive(Debug, Clone, Copy, PartialEq, Eq, Structural)]
pub enum SslMode {
    /// No encryption.
    Disable,
    /// Encryption where the server offers it.
    Prefer,
    /// Encryption, or no connection.
    Require,
}

/// Whether the certificate chain of the server is validated.
#[derive(Debug, Clone, Copy, PartialEq, Eq, Structural)]
pub enum TrustPolicy {
    /// The chain must lead to a root of the platform's native store.
    Strict,
    /// Any certificate is accepted.
    Permissive,
}

/// How the pool establishes its physical connections.
#[derive(Debug, Clone, Copy, PartialEq, Eq, Structural)]
pub enum PoolPlan {
    /// In the clear, as the driver does by default.
    Plain,
    /// Through a TLS handshake under the given policy.
    Secure(TrustPolicy),
}

/// Shared store logic for the services; it holds no state of its own.
#[derive(Debug, Clone, Copy, PartialEq, Eq, Structural)]
pub struct StoreInternal {}

/// The security mode that `tokio_postgres` reads from a connection string, or
/// `None` where it cannot read the string.
pub uninterp spec fn url_ssl_mode(db_url: Seq<char>) -> Option<SslMode>;

/// `tokio_postgres::Config::from_str`, then `Config::get_ssl_mode` on what was
/// read.
///
/// Trusted: the result is the mode named [`url_ssl_mode`]: `None` for a string
/// that is not a connection string, else the mode that the string sets, or the
/// driver's default where it sets none. The driver may come to know more
/// modes than the three of [`SslMode`]; such a mode counts as `Require`.
#[verifier::external_body]
fn read_ssl_mode(db_url: &str) -> (mode: Option<SslMode>)
    ensures
        mode == url_ssl_mode(db_url@),
{
    match tokio_postgres::Config::from_str(db_url) {
        Ok(config) => match config.get_ssl_mode() {
            tokio_postgres::config::SslMode::Disable => Some(SslMode::Disable),
            tokio_postgres::config::SslMode::Prefer => Some(SslMode::Prefer),
            _ => Some(SslMode::Require),
        },
        Err(_) => None,
    }
}

/// The trust policy that a security mode selects: none where encryption is
/// disabled, and the permissive one for every encrypted mode.
pub open spec fn resolved(mode: SslMode) -> Option<TrustPolicy> {
    match mode {
        SslMode::Disable => None,
        _ => Some(TrustPolicy::Permissive),
    }
}

/// The plan for a connection string whose security mode was read as `mode`:
/// a string that could not be read makes the pool fail to initialize.
pub open spec fn planned(mode: Option<SslMode>) -> Result<PoolPlan, StoreError> {
    match mode {
        None => Err(StoreError::InitializationError),
        Some(mode) => match resolved(mode) {
            None => Ok(PoolPlan::Plain),
            Some(policy) => Ok(PoolPlan::Secure(policy)),
        },
    }
}

/// The trust policy that a security mode selects.
///
/// No encrypted mode selects [`TrustPolicy::Strict`]: a server's certificate
/// chain is never validated.
pub fn resolve(mode: SslMode) -> (r: Option<TrustPolicy>)
    ensures
        r == resolved(mode),
        !(r matches Some(TrustPolicy::Strict)),
{
    match mode {
        SslMode::Disable => None,
        _ => Some(TrustPolicy::Permissive),
    }
}

impl TrustPolicy {
    /// Whether the policy validates the chain, and so needs the platform's
    /// root certificates loaded.
    pub fn validates_chain(&self) -> (r: bool)
        ensures
            r == (self is Strict),
    {
        match self {
            TrustPolicy::Strict => true,
            TrustPolicy::Permissive => false,
        }
    }

    /// Whether a server certificate is accepted, given whether its chain leads
    /// to a trusted root: always under the permissive policy, and under the
    /// strict one for a trusted chain only.
    pub fn accepts_certificate(&self, chain_trusted: bool) -> (r: bool)
        ensures
            r == (self is Permissive || chain_trusted),
    {
        match self {
            TrustPolicy::Strict => chain_trusted,
            TrustPolicy::Permissive => true,
        }
    }
}

impl PoolPlan {
    /// The plan for a connection string whose security mode was read as `mode`.
    pub fn for_mode(mode: Option<SslMode>) -> (r: Result<PoolPlan, StoreError>)
        ensures
            r == planned(mode),
    {
        match mode {
            None => Err(StoreError::InitializationError),
            Some(mode) => match resolve(mode) {
                None => Ok(PoolPlan::Plain),
                Some(policy) => Ok(PoolPlan::Secure(policy)),
            },
        }
    }

    /// The plan for a connection string.
    ///
    /// Fails with [`StoreError::InitializationError`] exactly on a string that
    /// the driver cannot read.
    pub fn for_url(db_url: &str) -> (r: Result<PoolPlan, StoreError>)
        ensures
            r == planned(url_ssl_mode(db_url@)),
    {
        PoolPlan::for_mode(read_ssl_mode(db_url))
    }
}

} // verus!
