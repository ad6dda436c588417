//! Credentials sent to the login endpoints, and what comes back.
use vstd::prelude::*;

use crate::error::BridgeError;
use crate::form::{encode_form, form_urlencoded, pair_texts};

verus! {

/// The reason a session login fails although the server answered.
#[derive(Debug, Clone, Copy, PartialEq, Eq, Structural)]
pub enum AuthFromSessionError {
    /// The server answered with no user for the session token.
    InvalidSession,
}

/// A forum user, as the server returns it on a successful login.
#[derive(Debug, Clone, PartialEq, Eq)]
pub struct User {
    pub user_id: u64,
    pub username: String,
}

/// The request of the name and password login.
pub struct Auth {
    pub login: String,
    pub password: String,
}

/// The request of the session login.
pub struct AuthFromSession {
    pub session_id: String,
}

/// The answer of the session login: a user, or none for a session that is
/// not valid.
#[derive(Debug, Clone, PartialEq, Eq)]
pub struct AuthFromSessionResponse {
    pub user: Option<User>,
}

impl Auth {
    /// The form body: `login`, then `password`.
    pub fn form_body(&self) -> (r: String)
        ensures
            r@ == form_urlencoded(seq![("login"@, self.login@), ("password"@, self.password@)]),
    {
        let pairs = vec![("login", self.login.as_str()), ("password", self.password.as_str())];
        assert(pair_texts(pairs@) =~= seq![("login"@, self.login@), ("password"@, self.password@)]);
        encode_form(&pairs).unwrap()
    }
}

impl AuthFromSession {
    /// The form body: `session_id`.
    pub fn form_body(&self) -> (r: String)
        ensures
            r@ == form_urlencoded(seq![("session_id"@, self.session_id@)]),
    {
        let pairs = vec![("session_id", self.session_id.as_str())];
        assert(pair_texts(pairs@) =~= seq![("session_id"@, self.session_id@)]);
        encode_form(&pairs).unwrap()
    }
}

impl AuthFromSessionResponse {
    /// The user of the answer; a missing user is an invalid session, not a
    /// decoding failure.
    pub fn into_user(self) -> (r: Result<User, BridgeError>)
        ensures
            self.user is Some ==> r == Ok::<User, BridgeError>(self.user->Some_0),
            self.user is None ==> r == Err::<User, BridgeError>(
                BridgeError::Session(AuthFromSessionError::InvalidSession),
            ),
    {
        match self.user {
            Some(u) => Ok(u),
            None => Err(BridgeError::Session(AuthFromSessionError::InvalidSession)),
        }
    }
}

} // verus!
