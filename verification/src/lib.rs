//! A client library for a MAAS-style bare-metal provisioning API.
//!
//! The library prepares OAuth1-signed requests and maps what a transport
//! brings back into JSON values or typed errors. It performs no I/O itself.

pub mod text;
pub mod error;
pub mod credentials;
pub mod endpoint;
pub mod json;
pub mod oauth;
pub mod models;
pub mod request;
pub mod response;
pub mod client;

pub use client::MaasClient;
pub use error::MaasError;
pub use models::Machine;
