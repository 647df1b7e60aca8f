use vstd::prelude::*;

use crate::cli::common::{api_request, base_url};
use crate::http::{ApiRequest, Method, RequestView, pair};

verus! {

/// `monzoctl accounts`.
pub struct AccountsArgs {
    /// Filter by account type, e.g. uk_retail or uk_retail_joint.
    pub account_type: Option<String>,
}

/// Lists the accounts, of one type when asked.
pub fn accounts_request(args: &AccountsArgs, token: &str) -> (r: ApiRequest)
    ensures
        r@ == (RequestView {
            body: None,
            method: Method::Get,
            url: base_url() + "/accounts"@,
            bearer: Some(token@),
            query: match args.account_type {
                Some(t) => seq![("account_type"@, t@)],
                None => Seq::empty(),
            },
            form: Seq::empty(),
        }),
{
    let mut query = Vec::new();
    if let Some(t) = &args.account_type {
        query.push(pair("account_type", t.clone()));
    }
    let r = api_request(Method::Get, "/accounts", token, query, Vec::new());
    proof {
        assert(r@.query =~= match args.account_type {
            Some(t) => seq![("account_type"@, t@)],
            None => Seq::<(Seq<char>, Seq<char>)>::empty(),
        });
        assert(r@.form =~= Seq::empty());
    }
    r
}

} // verus!
