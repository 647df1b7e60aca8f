use vstd::prelude::*;

use crate::config::{Config, Tokens};
use crate::http::{ApiRequest, Method, RequestView, pairs};
use crate::text::{decimal, decimal_string};

verus! {

/// Where the configuration file is read from.
pub const CONFIG_PATH: &'static str = "/home/ben/.config/monzoboiii/config.toml";

/// Where the token pair is kept, relative to the working directory.
pub const TOKENS_PATH: &'static str = "tokens.toml";

/// The Monzo API.
pub const BASE_URL: &'static str = "https://api.monzo.com";

/// The text of the Monzo API's base URL.
pub open spec fn base_url() -> Seq<char> {
    "https://api.monzo.com"@
}

/// The URL of the server's reauthorization page on a port.
pub open spec fn local_reauth_url(port: u16) -> Seq<char> {
    "http://localhost:"@ + decimal(port as nat) + "/auth/reauth"@
}

/// What the command-line tools say when no access token is held.
pub open spec fn not_authenticated_text(port: u16) -> Seq<char> {
    "Not authenticated — start the server and visit "@ + local_reauth_url(port)
}

/// The URL of the server's reauthorization page on a port.
pub fn reauth_page(port: u16) -> (url: String)
    ensures
        url@ == local_reauth_url(port),
{
    let mut url = String::from_str("http://localhost:");
    url.append(decimal_string(port as u128).as_str());
    url.append("/auth/reauth");
    url
}

/// The command-line tools need an access token: without one they stop with
/// a note on how to get one.
pub fn check_authenticated(config: &Config, tokens: &Tokens) -> (r: Result<(), String>)
    ensures
        tokens.access_token@.len() > 0 <==> r is Ok,
        r matches Err(m) ==> m@ == not_authenticated_text(config.app.port),
{
    if tokens.is_authenticated() {
        Ok(())
    } else {
        let mut m = String::from_str("Not authenticated — start the server and visit ");
        m.append(reauth_page(config.app.port).as_str());
        Err(m)
    }
}

/// A call of the Monzo API at `path`, with the access token.
pub fn api_request(
    method: Method,
    path: &str,
    token: &str,
    query: Vec<(String, String)>,
    form: Vec<(String, String)>,
) -> (r: ApiRequest)
    ensures
        r@ == (RequestView {
            body: None,
            method,
            url: base_url() + path@,
            bearer: Some(token@),
            query: pairs(query@),
            form: pairs(form@),
        }),
{
    let mut url = String::from_str(BASE_URL);
    url.append(path);
    ApiRequest { method, url, bearer: Some(String::from_str(token)), query, form, body: None }
}

/// `path` + `id` + `rest`, for paths with an id in them.
pub fn path_with_id(path: &str, id: &str, rest: &str) -> (p: String)
    ensures
        p@ == path@ + id@ + rest@,
{
    let mut p = String::from_str(path);
    p.append(id);
    p.append(rest);
    p
}

} // verus!
