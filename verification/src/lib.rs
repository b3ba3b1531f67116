//! Verified core of an HTTP upload gateway.
//!
//! The gateway accepts multipart file uploads, writes each field to local
//! disk and forwards the same content to a remote drive under a shared,
//! refreshable credential. This crate holds the decision logic of that
//! gateway: per-field outcome classification, the three-bucket tally and
//! its rendering as an HTTP response, the bounded credential-refresh retry
//! protocol, and the request-level state machine. The surrounding binary
//! performs the actual I/O (HTTP, disk, remote calls) and drives these
//! functions with plain values.

pub mod field;
pub mod outcome;
pub mod remote;
pub mod request;
pub mod respond;
