//! A connection-manager adapter for pooling FreeTDS database connections.
//!
//! The manager holds the immutable configuration a pool needs to create new
//! driver connections and to re-normalize pooled ones before reuse. The
//! decision logic — which database a connection must have active, whether a
//! `use` statement has to be issued, and when a handle counts as broken — is
//! verified here over a model of the session state the driver tracks. The
//! driver's own network operations (connect, execute, introspect) are
//! performed by the embedding application, which feeds their outcomes back
//! into this model.

pub mod manager;
pub mod session;
