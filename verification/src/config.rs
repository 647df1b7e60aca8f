use vstd::prelude::*;

verus! {

/// Settings of the HTTP server.
pub struct AppConfig {
    /// The path segment that every webhook URL must carry.
    pub secret: String,
    pub port: u16,
    /// Where Monzo sends the browser back after the user approves access.
    pub redirect_uri: String,
}

/// Credentials and account of the Monzo API client.
pub struct MonzoConfig {
    pub client_id: String,
    pub client_secret: String,
    /// The account whose transactions are acted on.
    pub account_id: String,
}

/// The whole configuration file.
pub struct Config {
    pub app: AppConfig,
    pub monzo: MonzoConfig,
}

/// The OAuth token pair.
pub struct Tokens {
    pub access_token: String,
    pub refresh_token: String,
}

impl Clone for AppConfig {
    fn clone(&self) -> (r: Self)
        ensures
            r == *self,
    {
        AppConfig { secret: self.secret.clone(), port: self.port, redirect_uri: self.redirect_uri.clone() }
    }
}

impl Clone for MonzoConfig {
    fn clone(&self) -> (r: Self)
        ensures
            r == *self,
    {
        MonzoConfig {
            client_id: self.client_id.clone(),
            client_secret: self.client_secret.clone(),
            account_id: self.account_id.clone(),
        }
    }
}

impl Clone for Config {
    fn clone(&self) -> (r: Self)
        ensures
            r == *self,
    {
        Config { app: self.app.clone(), monzo: self.monzo.clone() }
    }
}

impl Clone for Tokens {
    fn clone(&self) -> (r: Self)
        ensures
            r == *self,
    {
        Tokens { access_token: self.access_token.clone(), refresh_token: self.refresh_token.clone() }
    }
}

impl Default for Tokens {
    /// No tokens: both strings empty.
    fn default() -> (r: Self)
        ensures
            r.access_token@ == Seq::<char>::empty(),
            r.refresh_token@ == Seq::<char>::empty(),
    {
        Tokens { access_token: String::new(), refresh_token: String::new() }
    }
}

impl Tokens {
    /// Whether an access token is held at all.
    pub fn is_authenticated(&self) -> (r: bool)
        ensures
            r == (self.access_token@.len() > 0),
    {
        !self.access_token.as_str().is_empty()
    }
}

} // verus!
