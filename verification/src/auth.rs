//! Authentication with the broker API: the requests that obtain and renew the
//! access token, the errors of that flow, and the header that carries the
//! token on every request.
use vstd::prelude::*;

use crate::app_error::AppError;
use crate::text::{chars_of, push_str, string_from_chars};

use std::sync::{Arc, RwLock};
use tonic::metadata::errors::InvalidMetadataValue;
use tonic::metadata::{Ascii, MetadataValue};

verus! {

/// std's `RwLock`, declared so that the token holder can stand in a field;
/// nothing is known of what it holds.
#[verifier::external_type_specification]
#[verifier::external_body]
#[verifier::reject_recursive_types(T)]
pub struct ExRwLock<T: ?Sized>(RwLock<T>);

/// Whether `tonic`/`http` accept the text as a header value: every byte of its
/// UTF-8 encoding is a tab or at least 32 and not 127; in characters, every
/// character is a tab or has a code of at least 32 other than 127.
pub open spec fn metadata_value_valid(s: Seq<char>) -> bool {
    forall|i: int| 0 <= i < s.len() ==> ((s[i] as u32) >= 32 && (s[i] as u32) != 127) || (s[i] as u32) == 9
}

/// Whether `<MetadataValue<Ascii> as TryFrom<&str>>::try_from` accepts the
/// text. Trusted: it accepts exactly when every character is a tab or at
/// least 32 and not 127 (tonic parses through `http::HeaderValue::from_str`,
/// whose byte test is `b >= 32 && b != 127 || b == b'\t'`).
#[verifier::external_body]
fn metadata_value_accepts(s: &str) -> (ok: bool)
    ensures
        ok <==> metadata_value_valid(s@),
{
    let parsed: Result<MetadataValue<Ascii>, InvalidMetadataValue> = MetadataValue::try_from(s);
    parsed.is_ok()
}

/// The header text `Bearer {token}`.
pub open spec fn bearer(token: Seq<char>) -> Seq<char> {
    "Bearer "@ + token
}

/// The name of the request metadata entry that carries the token.
pub open spec fn authorization_key() -> Seq<char> {
    "authorization"@
}

/// The name of the request metadata entry that carries the token.
pub fn authorization_key_text() -> (k: &'static str)
    ensures
        k@ == authorization_key(),
{
    "authorization"
}

/// Why a request could not be given its authorization header.
#[derive(Clone, Copy, Debug, PartialEq, Eq)]
pub enum AuthorizeError {
    /// The lock holding the token was poisoned.
    PoisonedLock,
    /// The header text holds characters a metadata value cannot hold.
    InvalidHeader,
}

/// Reads the current token from its lock with std's `RwLock::read`, giving
/// `None` for the poisoned-lock error. No clause is claimed: the token is
/// written by other tasks, and whether the lock is poisoned depends on them.
#[verifier::external_body]
fn read_token(holder: &Arc<RwLock<String>>) -> (token: Option<String>) {
    match holder.read() {
        Ok(guard) => Some(guard.clone()),
        Err(_) => None,
    }
}

/// Adds the current access token to every request to the broker API.
pub struct AuthInterceptor {
    token_holder: Arc<RwLock<String>>,
}

impl AuthInterceptor {
    /// An interceptor reading the token from `token_holder`.
    pub fn new(token_holder: Arc<RwLock<String>>) -> (i: AuthInterceptor)
        ensures
            i.token_holder() == token_holder,
    {
        AuthInterceptor { token_holder }
    }

    /// The lock the token is read from.
    pub closed spec fn token_holder(&self) -> Arc<RwLock<String>> {
        self.token_holder
    }

    /// The lock the token is read from.
    pub fn holder(&self) -> (h: &Arc<RwLock<String>>)
        ensures
            *h == self.token_holder(),
    {
        &self.token_holder
    }

    /// The authorization header value for `token`: `Bearer {token}`, where it
    /// is a valid metadata value.
    pub fn authorization_for(token: &str) -> (r: Result<String, AuthorizeError>)
        ensures
            match r {
                Ok(h) => h@ == bearer(token@) && metadata_value_valid(bearer(token@)),
                Err(e) => e == AuthorizeError::InvalidHeader && !metadata_value_valid(
                    bearer(token@),
                ),
            },
    {
        let mut text = chars_of("Bearer ");
        push_str(&mut text, token);
        let header = string_from_chars(&text);
        if metadata_value_accepts(header.as_str()) {
            Ok(header)
        } else {
            Err(AuthorizeError::InvalidHeader)
        }
    }

    /// The authorization header value for the token currently held: whatever
    /// token is read, an accepted value is `Bearer ` followed by it and is a
    /// valid metadata value.
    pub fn authorize(&self) -> (r: Result<String, AuthorizeError>)
        ensures
            r matches Ok(h) ==> exists|t: Seq<char>| h@ == bearer(t) && metadata_value_valid(
                #[trigger] bearer(t),
            ),
    {
        match read_token(&self.token_holder) {
            None => Err(AuthorizeError::PoisonedLock),
            Some(token) => Self::authorization_for(token.as_str()),
        }
    }
}

/// The request that obtains the first access token.
pub struct AuthRequest {
    pub secret: String,
    pub source_app_id: String,
}

/// The request that subscribes to token renewals.
pub struct SubscribeJwtRenewalRequest {
    pub secret: String,
    pub source_app_id: String,
}

/// The application id sent when obtaining the first token.
pub open spec fn auth_app_id() -> Seq<char> {
    "market-data-service"@
}

/// The application id sent when subscribing to token renewals.
pub open spec fn renewal_app_id() -> Seq<char> {
    "market_data_service"@
}

/// Obtains and renews the access token of the broker API.
pub struct FinamAuthGrpcClient;

impl FinamAuthGrpcClient {
    /// The request for the first token: the API token as the secret.
    pub fn auth_request(api_token: &str) -> (r: AuthRequest)
        ensures
            r.secret@ == api_token@,
            r.source_app_id@ == auth_app_id(),
    {
        AuthRequest {
            secret: String::from_str(api_token),
            source_app_id: String::from_str("market-data-service"),
        }
    }

    /// The request that subscribes to renewals: the API token as the secret.
    pub fn renewal_request(api_token: &str) -> (r: SubscribeJwtRenewalRequest)
        ensures
            r.secret@ == api_token@,
            r.source_app_id@ == renewal_app_id(),
    {
        SubscribeJwtRenewalRequest {
            secret: String::from_str(api_token),
            source_app_id: String::from_str("market_data_service"),
        }
    }

    /// The error when the connection to the auth service fails; `cause` is
    /// the pretty `Debug` text of the failure.
    pub fn connect_error(cause: String) -> (e: AppError)
        ensures
            e.message@ == "Failed to create auth client."@,
            e.cause matches Some(c) && c@ == cause@,
    {
        AppError::with_cause(String::from_str("Failed to create auth client."), cause)
    }

    /// The error when obtaining the first token fails; `cause` is the pretty
    /// `Debug` text of the failure.
    pub fn auth_error(cause: String) -> (e: AppError)
        ensures
            e.message@ == "Failed to authenticate"@,
            e.cause matches Some(c) && c@ == cause@,
    {
        AppError::with_cause(String::from_str("Failed to authenticate"), cause)
    }
}

} // verus!
