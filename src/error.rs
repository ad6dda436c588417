use vstd::prelude::*;

use crate::models::auth::AuthFromSessionError;

verus! {

/// Every failure of a bridge operation.
///
/// No variant carries a configuration value or a credential.
#[derive(Debug, Clone, Copy, PartialEq, Eq, Structural)]
pub enum BridgeError {
    /// A configured value cannot be written as an HTTP header value.
    HeaderEncoding,
    /// The transport failed: DNS, connection, TLS or I/O.
    Transport,
    /// The response body is not JSON of the expected shape.
    Decode,
    /// The server answered a session login without a user.
    Session(AuthFromSessionError),
}

/// Maps an error of the transport to `BridgeError::Transport`.
pub fn from_transport(e: reqwest::Error) -> (r: BridgeError)
    ensures
        r == BridgeError::Transport,
{
    BridgeError::Transport
}

/// Keeps a transport result and turns its failure into `BridgeError::Transport`.
pub fn transport_result<T>(r: Result<T, reqwest::Error>) -> (out: Result<T, BridgeError>)
    ensures
        r is Ok ==> out == Ok::<T, BridgeError>(r->Ok_0),
        r is Err ==> out == Err::<T, BridgeError>(BridgeError::Transport),
{
    match r {
        Ok(v) => Ok(v),
        Err(e) => Err(from_transport(e)),
    }
}

} // verus!
