//! Validation of bearer tokens against a periodically refreshed public key.
//!
//! A background task fetches the identity broker's published verification key
//! on a fixed interval and installs it into a process-wide cell; a synchronous
//! per-request routine reads that cell and makes an allow/deny decision for a
//! presented token. The cell, the rotation step and the validation decision
//! live here, with their contracts; the HTTP server, the clock and the network
//! fetch itself are the caller's business.

pub mod key_rotator;
pub mod validator;
