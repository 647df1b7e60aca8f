use vstd::prelude::*;

use crate::cli::common::{api_request, base_url};
use crate::cli::pots::text_or;
use crate::config::Config;
use crate::http::{ApiRequest, Method, RequestView, pair};

verus! {

/// `monzoctl balance`.
pub struct BalanceArgs {
    /// The account to check; the configured one by default.
    pub account_id: Option<String>,
}

/// Reads the balance of an account (the configured one by default).
pub fn balance_request(args: BalanceArgs, config: &Config, token: &str) -> (r: ApiRequest)
    ensures
        r@ == (RequestView {
            body: None,
            method: Method::Get,
            url: base_url() + "/balance"@,
            bearer: Some(token@),
            query: seq![("account_id"@, text_or(args.account_id, config.monzo.account_id@))],
            form: Seq::empty(),
        }),
{
    let account = match args.account_id {
        Some(a) => a,
        None => config.monzo.account_id.clone(),
    };
    let mut query = Vec::new();
    query.push(pair("account_id", account));
    let r = api_request(Method::Get, "/balance", token, query, Vec::new());
    proof {
        assert(r@.query =~= seq![("account_id"@, text_or(args.account_id, config.monzo.account_id@))]);
        assert(r@.form =~= Seq::empty());
    }
    r
}

} // verus!
