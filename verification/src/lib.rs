//! Authentication and session lifecycle for an HTTP service: password
//! hashing, signed access and refresh tokens, a refresh-token ledger with
//! single-use rotation, and the cookie and CSRF rules that carry them.

pub mod digest;
pub mod error;
pub mod token;
pub mod password;
pub mod text;
pub mod model;
pub mod state;
pub mod transport;
pub mod flow;
pub mod orchestrator;
pub mod store;
pub mod service;
