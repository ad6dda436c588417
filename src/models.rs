//! The request and response types of the API.
pub mod auth;
pub mod stats;
