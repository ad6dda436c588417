//! The bridge: configuration, the headers of every request, endpoint
//! addresses and request bodies.
use vstd::prelude::*;
use vstd::utf8::encode_utf8;

use crate::error::BridgeError;
use crate::form::form_urlencoded;
use crate::headers::{
    ascii_bytes, client_with_headers, header_entries, header_map_insert, header_map_new,
    header_value_from_i32, header_value_from_str, int_decimal, is_header_value_text,
    lemma_printable_header_text, no_headers,
};
use crate::models::auth::{Auth, AuthFromSession};

verus! {

/// The user agent of every request.
pub const USER_AGENT: &'static str = "xfbridge";

/// The content type of every request.
pub const FORM_CONTENT_TYPE: &'static str = "application/x-www-form-urlencoded";

/// The headers every request carries: user agent, API key, content type,
/// and the acting user where a super user id is configured.
pub open spec fn expected_headers(api_key: Seq<char>, su_id: Option<i32>) -> Map<
    Seq<char>,
    Seq<u8>,
> {
    let common = no_headers().insert("user-agent"@, encode_utf8(USER_AGENT@)).insert(
        "xf-api-key"@,
        encode_utf8(api_key),
    ).insert("content-type"@, encode_utf8(FORM_CONTENT_TYPE@));
    match su_id {
        Some(n) => common.insert("xf-api-user"@, ascii_bytes(int_decimal(n as int))),
        None => common,
    }
}

/// The forum API bridge: where the forum is, the API key, and the user a
/// super-user key acts for.
#[derive(Debug, Clone)]
pub struct XfBridge {
    base_url: String,
    api_key: String,
    su_id: Option<i32>,
}

impl XfBridge {
    /// The base URL, as given.
    pub closed spec fn base_url_view(&self) -> Seq<char> {
        self.base_url@
    }

    /// The API key, as given.
    pub closed spec fn api_key_view(&self) -> Seq<char> {
        self.api_key@
    }

    /// The user that a super-user key acts for, if any.
    pub closed spec fn super_user_id(&self) -> Option<i32> {
        self.su_id
    }

    /// Holds the configuration as it is given; nothing is checked here.
    pub fn new(base_url: &str, api_key: &str, su_id: Option<i32>) -> (r: Self)
        ensures
            r.base_url_view() == base_url@,
            r.api_key_view() == api_key@,
            r.super_user_id() == su_id,
    {
        XfBridge { base_url: base_url.to_owned(), api_key: api_key.to_owned(), su_id }
    }

    /// The default headers of every request. Fails with
    /// `BridgeError::HeaderEncoding` exactly when the API key holds a byte
    /// that no header value may hold.
    pub fn default_headers(&self) -> (r: Result<reqwest::header::HeaderMap, BridgeError>)
        ensures
            r is Err <==> !is_header_value_text(self.api_key_view()),
            r is Err ==> r == Err::<reqwest::header::HeaderMap, BridgeError>(
                BridgeError::HeaderEncoding,
            ),
            r is Ok ==> header_entries(r->Ok_0) == expected_headers(
                self.api_key_view(),
                self.super_user_id(),
            ),
            r is Ok ==> (header_entries(r->Ok_0).contains_key("xf-api-user"@)
                <==> self.super_user_id() is Some),
            r is Ok && self.super_user_id() is Some ==> header_entries(r->Ok_0)["xf-api-user"@]
                == ascii_bytes(int_decimal(self.super_user_id()->Some_0 as int)),
    {
        proof {
            reveal_strlit("xfbridge");
            reveal_strlit("application/x-www-form-urlencoded");
            reveal_strlit("user-agent");
            reveal_strlit("xf-api-key");
            reveal_strlit("xf-api-user");
            reveal_strlit("content-type");
            lemma_printable_header_text(USER_AGENT@);
            lemma_printable_header_text(FORM_CONTENT_TYPE@);
        }
        let mut headers = header_map_new();
        let agent = match header_value_from_str(USER_AGENT) {
            Ok(v) => v,
            Err(_) => return Err(BridgeError::HeaderEncoding),
        };
        header_map_insert(&mut headers, "user-agent", agent);
        let key = match header_value_from_str(self.api_key.as_str()) {
            Ok(v) => v,
            Err(_) => return Err(BridgeError::HeaderEncoding),
        };
        header_map_insert(&mut headers, "xf-api-key", key);
        if let Some(n) = self.su_id {
            header_map_insert(&mut headers, "xf-api-user", header_value_from_i32(n));
        }
        let content = match header_value_from_str(FORM_CONTENT_TYPE) {
            Ok(v) => v,
            Err(_) => return Err(BridgeError::HeaderEncoding),
        };
        header_map_insert(&mut headers, "content-type", content);
        assert(header_entries(headers) =~= expected_headers(self.api_key@, self.su_id));
        Ok(headers)
    }

    /// A fresh client that sends the default headers with every request.
    /// Building it makes no network traffic.
    pub fn build_client(&self) -> (r: Result<reqwest::Client, BridgeError>)
        ensures
            !is_header_value_text(self.api_key_view()) ==> r == Err::<
                reqwest::Client,
                BridgeError,
            >(BridgeError::HeaderEncoding),
            is_header_value_text(self.api_key_view()) ==> (r is Ok || r == Err::<
                reqwest::Client,
                BridgeError,
            >(BridgeError::Transport)),
    {
        let headers = self.default_headers()?;
        match client_with_headers(headers) {
            Ok(c) => Ok(c),
            Err(_) => Err(BridgeError::Transport),
        }
    }

    fn endpoint(&self, path: &str) -> (r: String)
        ensures
            r@ == self.base_url@ + path@,
    {
        let mut url = self.base_url.clone();
        url.append(path);
        url
    }

    /// The address of the statistics endpoint.
    pub fn stats_url(&self) -> (r: String)
        ensures
            r@ == self.base_url_view() + "/api/stats"@,
    {
        self.endpoint("/api/stats")
    }

    /// The address of the name and password login.
    pub fn auth_url(&self) -> (r: String)
        ensures
            r@ == self.base_url_view() + "/api/auth"@,
    {
        self.endpoint("/api/auth")
    }

    /// The address of the session login.
    pub fn session_auth_url(&self) -> (r: String)
        ensures
            r@ == self.base_url_view() + "/api/auth/from-session"@,
    {
        self.endpoint("/api/auth/from-session")
    }

    /// The form body of a name and password login.
    pub fn password_login_body(username: &str, password: &str) -> (r: String)
        ensures
            r@ == form_urlencoded(seq![("login"@, username@), ("password"@, password@)]),
    {
        let auth = Auth { login: username.to_owned(), password: password.to_owned() };
        auth.form_body()
    }

    /// The form body of a session login.
    pub fn session_login_body(session: &str) -> (r: String)
        ensures
            r@ == form_urlencoded(seq![("session_id"@, session@)]),
    {
        let auth = AuthFromSession { session_id: session.to_owned() };
        auth.form_body()
    }
}

} // verus!
