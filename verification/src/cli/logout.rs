use vstd::prelude::*;

use crate::cli::common::{api_request, base_url};
use crate::config::Tokens;
use crate::http::{ApiRequest, Method, RequestView};

verus! {

/// Revokes the access token.
pub fn logout_request(token: &str) -> (r: ApiRequest)
    ensures
        r@ == (RequestView {
            body: None,
            method: Method::Post,
            url: base_url() + "/oauth2/logout"@,
            bearer: Some(token@),
            query: Seq::empty(),
            form: Seq::empty(),
        }),
{
    let r = api_request(Method::Post, "/oauth2/logout", token, Vec::new(), Vec::new());
    proof {
        assert(r@.query =~= Seq::empty());
        assert(r@.form =~= Seq::empty());
    }
    r
}

/// The tokens stored once logged out: none.
pub fn logged_out_tokens() -> (t: Tokens)
    ensures
        t.access_token@.len() == 0,
        t.refresh_token@.len() == 0,
{
    Tokens::default()
}

} // verus!
