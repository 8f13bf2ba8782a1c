//! Ingestion-and-critique pipeline for uploaded documents.
//!
//! The library holds the verified core of a document-critique service:
//! a credential codec (password hashing and bearer tokens), an identity
//! gate, a model of the artifact store, and the ingestion pipeline that
//! turns a multipart upload into a stored, critiqued artifact. The
//! surrounding HTTP server, disk and network I/O live outside the
//! library and hand it plain values.

pub mod auth;
pub mod config;
pub mod errors;
pub mod handlers;
pub mod models;
pub mod store;
