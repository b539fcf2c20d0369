//! Request-processing core of a small HTTP API gateway: session tokens, the
//! auth auth guard in front of mutating routes, a bounded connection pool with its
//! waiting line, the settling of off-thread database work, multipart ingestion
//! and the login decisions.

pub mod error;
pub mod token;
pub mod text;
pub mod gate;
pub mod pool;
pub mod bridge;
pub mod ingest;
pub mod login;
pub mod records;
