use vstd::prelude::*;

use crate::cli::common::{api_request, base_url};
use crate::http::{ApiRequest, Method, RequestView};

verus! {

/// Asks who the access token belongs to.
pub fn whoami_request(token: &str) -> (r: ApiRequest)
    ensures
        r@ == (RequestView {
            body: None,
            method: Method::Get,
            url: base_url() + "/ping/whoami"@,
            bearer: Some(token@),
            query: Seq::empty(),
            form: Seq::empty(),
        }),
{
    let r = api_request(Method::Get, "/ping/whoami", token, Vec::new(), Vec::new());
    proof {
        assert(r@.query =~= Seq::empty());
        assert(r@.form =~= Seq::empty());
    }
    r
}

} // verus!
