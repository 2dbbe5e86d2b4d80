//! The interface that clients use.
pub mod laws;
pub mod request_laws;
pub mod service;
pub mod stream_registry;
pub mod tcp_token_interceptor;
