//! Client for a forum platform's HTTP API: request headers and bodies,
//! endpoint addresses, and decoding of the typed responses.
pub mod bridge;
pub mod error;
pub mod form;
pub mod headers;
pub mod models;
pub mod numeric;

pub use bridge::XfBridge;
pub use error::BridgeError;
