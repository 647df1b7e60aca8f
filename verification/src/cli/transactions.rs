use vstd::prelude::*;

use crate::cli::common::{api_request, base_url, path_with_id};
use crate::cli::feed::optional_field;
use crate::cli::pots::text_or;
use crate::config::Config;
use crate::http::{ApiRequest, Method, RequestView, pair, pairs};
use crate::text::{decimal, decimal_string, split_once};

verus! {

/// `monzoctl transactions`.
pub struct TransactionsArgs {
    pub command: TransactionsCommand,
}

/// The `transactions` subcommands.
pub enum TransactionsCommand {
    /// List transactions on an account (the configured one by default).
    List {
        account_id: Option<String>,
        /// Only after this time (RFC 3339) or transaction id.
        since: Option<String>,
        /// Only before this time (RFC 3339).
        before: Option<String>,
        limit: Option<u32>,
        expand_merchant: bool,
    },
    /// Retrieve one transaction.
    Get { transaction_id: String, expand_merchant: bool },
    /// Set or delete metadata annotations (KEY=VALUE; an empty value deletes).
    Annotate { transaction_id: String, metadata: Vec<String> },
}

/// The query pair that asks for the merchant inline, when wanted.
pub open spec fn expand_merchant_query(expand: bool) -> Seq<(Seq<char>, Seq<char>)> {
    if expand {
        seq![("expand[]"@, "merchant"@)]
    } else {
        Seq::empty()
    }
}

/// The query of a transaction listing: the account, then whichever of
/// since, before and limit are given, then the merchant expansion.
pub open spec fn list_query(
    config: Config,
    account_id: Option<String>,
    since: Option<String>,
    before: Option<String>,
    limit: Option<u32>,
    expand_merchant: bool,
) -> Seq<(Seq<char>, Seq<char>)> {
    seq![("account_id"@, text_or(account_id, config.monzo.account_id@))] + optional_field("since"@, since)
        + optional_field("before"@, before) + match limit {
        Some(l) => seq![("limit"@, decimal(l as nat))],
        None => Seq::empty(),
    } + expand_merchant_query(expand_merchant)
}

/// Lists transactions.
pub fn list_request(
    config: &Config,
    token: &str,
    account_id: Option<String>,
    since: Option<String>,
    before: Option<String>,
    limit: Option<u32>,
    expand_merchant: bool,
) -> (r: ApiRequest)
    ensures
        r@ == (RequestView {
            body: None,
            method: Method::Get,
            url: base_url() + "/transactions"@,
            bearer: Some(token@),
            query: list_query(*config, account_id, since, before, limit, expand_merchant),
            form: Seq::empty(),
        }),
{
    let ghost (a0, s0, b0) = (account_id, since, before);
    let account = match account_id {
        Some(a) => a,
        None => config.monzo.account_id.clone(),
    };
    let mut query = Vec::new();
    query.push(pair("account_id", account));
    let ghost q1 = pairs(query@);
    if let Some(s) = since {
        query.push(pair("since", s));
    }
    proof {
        assert(pairs(query@) =~= q1 + optional_field("since"@, s0));
    }
    let ghost q2 = pairs(query@);
    if let Some(b) = before {
        query.push(pair("before", b));
    }
    proof {
        assert(pairs(query@) =~= q2 + optional_field("before"@, b0));
    }
    let ghost q3 = pairs(query@);
    if let Some(l) = limit {
        query.push(pair("limit", decimal_string(l as u128)));
    }
    let ghost lim = match limit {
        Some(l) => seq![("limit"@, decimal(l as nat))],
        None => Seq::<(Seq<char>, Seq<char>)>::empty(),
    };
    proof {
        assert(pairs(query@) =~= q3 + lim);
    }
    let ghost q4 = pairs(query@);
    if expand_merchant {
        query.push(pair("expand[]", String::from_str("merchant")));
    }
    proof {
        assert(pairs(query@) =~= q4 + expand_merchant_query(expand_merchant));
        assert(q1 =~= seq![("account_id"@, text_or(a0, config.monzo.account_id@))]);
    }
    let r = api_request(Method::Get, "/transactions", token, query, Vec::new());
    proof {
        assert(r@.form =~= Seq::empty());
    }
    r
}

/// Retrieves one transaction.
pub fn get_request(token: &str, transaction_id: &str, expand_merchant: bool) -> (r: ApiRequest)
    ensures
        r@ == (RequestView {
            body: None,
            method: Method::Get,
            url: base_url() + "/transactions/"@ + transaction_id@,
            bearer: Some(token@),
            query: expand_merchant_query(expand_merchant),
            form: Seq::empty(),
        }),
{
    let mut query = Vec::new();
    if expand_merchant {
        query.push(pair("expand[]", String::from_str("merchant")));
    }
    let path = path_with_id("/transactions/", transaction_id, "");
    let r = api_request(Method::Get, path.as_str(), token, query, Vec::new());
    proof {
        reveal_strlit("");
        assert(r@.url =~= base_url() + "/transactions/"@ + transaction_id@);
        assert(r@.query =~= expand_merchant_query(expand_merchant));
        assert(r@.form =~= Seq::empty());
    }
    r
}

/// The message for a metadata argument without "=".
pub open spec fn invalid_metadata_text(kv: Seq<char>) -> Seq<char> {
    "Invalid metadata '"@ + kv + "' — expected KEY=VALUE"@
}

/// The form field of one KEY=VALUE annotation, split at the first "=".
pub open spec fn annotation_field(kv: Seq<char>, field: (Seq<char>, Seq<char>)) -> bool {
    exists|key: Seq<char>, value: Seq<char>|
        #![trigger key + seq!['='] + value]
        kv == key + seq!['='] + value && !key.contains('=') && field == ("metadata["@ + key + "]"@, value)
}

/// The form of a metadata annotation: each KEY=VALUE argument becomes the
/// field "metadata[KEY]" with VALUE (split at the first "="), in order; the
/// first argument without "=" is refused with its message.
pub fn annotation_form(metadata: &Vec<String>) -> (r: Result<Vec<(String, String)>, String>)
    ensures
        r is Ok <==> forall|i: int| 0 <= i < metadata@.len() ==> #[trigger] metadata@[i]@.contains('='),
        r matches Ok(form) ==> form@.len() == metadata@.len() && forall|i: int|
            0 <= i < metadata@.len() ==> annotation_field(#[trigger] metadata@[i]@, pairs(form@)[i]),
        r matches Err(m) ==> exists|i: int|
            0 <= i < metadata@.len() && !(#[trigger] metadata@[i]@).contains('=') && (forall|j: int|
                0 <= j < i ==> metadata@[j]@.contains('=')) && m@ == invalid_metadata_text(metadata@[i]@),
{
    let mut form: Vec<(String, String)> = Vec::new();
    let mut i: usize = 0;
    while i < metadata.len()
        invariant
            i <= metadata@.len(),
            form@.len() == i,
            forall|j: int| 0 <= j < i ==> #[trigger] metadata@[j]@.contains('='),
            forall|j: int| 0 <= j < i ==> annotation_field(#[trigger] metadata@[j]@, pairs(form@)[j]),
        decreases metadata@.len() - i,
    {
        match split_once(metadata[i].as_str(), '=') {
            None => {
                let mut m = String::from_str("Invalid metadata '");
                m.append(metadata[i].as_str());
                m.append("' — expected KEY=VALUE");
                return Err(m);
            },
            Some((key, value)) => {
                let mut name = String::from_str("metadata[");
                name.append(key.as_str());
                name.append("]");
                proof {
                    let field = (name@, value@);
                    assert(metadata@[i as int]@ == key@ + seq!['='] + value@);
                    assert(annotation_field(metadata@[i as int]@, field));
                }
                let ghost before = form@;
                form.push((name, value));
                proof {
                    assert forall|j: int| 0 <= j < i + 1 implies annotation_field(#[trigger] metadata@[j]@, pairs(form@)[j]) by {
                        if j < i {
                            assert(pairs(form@)[j] == pairs(before)[j]);
                        }
                    }
                }
            },
        }
        i = i + 1;
    }
    Ok(form)
}

/// Annotates a transaction with the given form.
pub fn annotate_request(token: &str, transaction_id: &str, form: Vec<(String, String)>) -> (r: ApiRequest)
    ensures
        r@ == (RequestView {
            body: None,
            method: Method::Patch,
            url: base_url() + "/transactions/"@ + transaction_id@,
            bearer: Some(token@),
            query: Seq::empty(),
            form: pairs(form@),
        }),
{
    let path = path_with_id("/transactions/", transaction_id, "");
    let r = api_request(Method::Patch, path.as_str(), token, Vec::new(), form);
    proof {
        reveal_strlit("");
        assert(r@.url =~= base_url() + "/transactions/"@ + transaction_id@);
        assert(r@.query =~= Seq::empty());
    }
    r
}

/// Law: a transaction listing asks for the given account (the configured
/// one when none is given) first; a given `before` bound is always in the
/// query, right after the account and the `since` bound.
pub proof fn lemma_list_query_keeps_bounds(
    config: Config,
    account_id: Option<String>,
    since: Option<String>,
    before: Option<String>,
    limit: Option<u32>,
    expand_merchant: bool,
)
    ensures
        ({
            let q = list_query(config, account_id, since, before, limit, expand_merchant);
            let k: int = if since is Some { 2 } else { 1 };
            &&& account_id matches Some(a) ==> q[0] == ("account_id"@, a@)
            &&& account_id is None ==> q[0] == ("account_id"@, config.monzo.account_id@)
            &&& since matches Some(s) ==> q[1] == ("since"@, s@)
            &&& before matches Some(b) ==> q.len() > k && q[k] == ("before"@, b@)
        }),
{
}

} // verus!
