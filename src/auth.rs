//! Credentials of the tracker app installation: the signed-token claims and
//! the address where a token for the installation is requested.
use vstd::prelude::*;
use crate::decimal::{decimal_of, push_decimal};

verus! {

/// Seconds before now at which an app token is said to be issued (clock skew).
pub const JWT_BACKDATE_SECONDS: i64 = 60;

/// Seconds after now at which an app token expires.
pub const JWT_LIFETIME_SECONDS: i64 = 600;

/// An app registered with the tracker, installed on one account.
pub struct GitHubApp {
    app_id: String,
    private_key: String,
    installation_id: u64,
}

/// The claims of the token that authenticates the app.
pub struct Claims {
    pub iat: i64,
    pub exp: i64,
    pub iss: String,
}

impl GitHubApp {
    pub closed spec fn app_id_spec(&self) -> Seq<char> {
        self.app_id@
    }

    pub closed spec fn private_key_spec(&self) -> Seq<char> {
        self.private_key@
    }

    pub closed spec fn installation_id_spec(&self) -> u64 {
        self.installation_id
    }

    /// An app from its identifier, the text of its PEM private key, and its installation.
    pub fn with_private_key(app_id: String, private_key: String, installation_id: u64) -> (r: Self)
        ensures
            r.app_id_spec() == app_id@,
            r.private_key_spec() == private_key@,
            r.installation_id_spec() == installation_id,
    {
        GitHubApp { app_id, private_key, installation_id }
    }

    pub fn app_id(&self) -> (r: &str)
        ensures
            r@ == self.app_id_spec(),
    {
        self.app_id.as_str()
    }

    pub fn private_key(&self) -> (r: &str)
        ensures
            r@ == self.private_key_spec(),
    {
        self.private_key.as_str()
    }

    pub fn installation_id(&self) -> (r: u64)
        ensures
            r == self.installation_id_spec(),
    {
        self.installation_id
    }

    /// The claims of a token issued at `now` (seconds since the epoch): issued
    /// a minute early, valid for ten minutes, issued by the app.
    pub fn jwt_claims(&self, now: i64) -> (r: Claims)
        requires
            i64::MIN + JWT_BACKDATE_SECONDS <= now <= i64::MAX - JWT_LIFETIME_SECONDS,
        ensures
            r.iat == now - JWT_BACKDATE_SECONDS,
            r.exp == now + JWT_LIFETIME_SECONDS,
            r.iss@ == self.app_id_spec(),
    {
        Claims {
            iat: now - JWT_BACKDATE_SECONDS,
            exp: now + JWT_LIFETIME_SECONDS,
            iss: self.app_id.clone(),
        }
    }

    /// Where a token for the installation is requested.
    pub fn installation_token_url(&self) -> (r: String)
        ensures
            r@ == "https://api.github.com/app/installations/"@ + decimal_of(
                self.installation_id_spec() as nat,
            ) + "/access_tokens"@,
    {
        let mut s = String::from_str("https://api.github.com/app/installations/");
        push_decimal(&mut s, self.installation_id);
        s.append("/access_tokens");
        s
    }
}

/// The value of the authorisation header that carries a token.
pub fn bearer(token: &str) -> (r: String)
    ensures
        r@ == "Bearer "@ + token@,
{
    let mut s = String::from_str("Bearer ");
    s.append(token);
    s
}

} // verus!
