//! Data-access core of a multi-tenant billing store.
//!
//! The crate holds the parts of the store that decide something: how a
//! connection string selects a TLS trust policy, how a transaction scope
//! answers each thing that happens on its connection, and how typed domain
//! values (discount coupons, billing schedules) pass to and from the
//! schema-less documents that the rows keep. The database driver, the pool and
//! the network stay outside; they act on what these functions return.

pub mod coupons;
pub mod decimal;
pub mod document;
pub mod errors;
pub mod ident;
pub mod productfamilies;
pub mod schedules;
pub mod store;
pub mod transaction;
