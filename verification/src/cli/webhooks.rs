use vstd::prelude::*;

use crate::cli::common::{api_request, base_url, path_with_id};
use crate::cli::pots::text_or;
use crate::config::Config;
use crate::http::{ApiRequest, Method, RequestView, pair};
use crate::text::{decimal, decimal_string, text_eq, trim_end, trim_end_char};

verus! {

/// `monzoctl webhooks`.
pub struct WebhooksArgs {
    pub command: WebhooksCommand,
}

/// The `webhooks` subcommands.
pub enum WebhooksCommand {
    /// List webhooks registered on the configured account.
    List,
    /// Register a webhook at <base_url>/webhook/monzo/<secret>.
    Create { base_url: String },
    /// Delete a webhook by id.
    Delete { id: String },
    /// Send a test transaction.created event to the local server.
    Test { category: Option<String> },
}

/// Lists the webhooks of the configured account.
pub fn list_request(config: &Config, token: &str) -> (r: ApiRequest)
    ensures
        r@ == (RequestView {
            body: None,
            method: Method::Get,
            url: base_url() + "/webhooks"@,
            bearer: Some(token@),
            query: seq![("account_id"@, config.monzo.account_id@)],
            form: Seq::empty(),
        }),
{
    let mut query = Vec::new();
    query.push(pair("account_id", config.monzo.account_id.clone()));
    let r = api_request(Method::Get, "/webhooks", token, query, Vec::new());
    proof {
        assert(r@.query =~= seq![("account_id"@, config.monzo.account_id@)]);
        assert(r@.form =~= Seq::empty());
    }
    r
}

/// A value as shown, with "?" standing for a missing one.
pub open spec fn shown(o: Option<String>) -> Seq<char> {
    text_or(o, "?"@)
}

/// A value as shown, with "?" standing for a missing one.
pub fn show(o: &Option<String>) -> (s: String)
    ensures
        s@ == shown(*o),
{
    match o {
        Some(v) => v.clone(),
        None => String::from_str("?"),
    }
}

/// One listed webhook: its id and URL, two spaces apart.
pub open spec fn listing_line(hook: (Option<String>, Option<String>)) -> Seq<char> {
    shown(hook.0) + "  "@ + shown(hook.1)
}

/// What `webhooks list` prints, given the id and URL of each registered
/// webhook: one line per webhook, or a note that there are none.
pub fn listing_lines(hooks: &Vec<(Option<String>, Option<String>)>) -> (lines: Vec<String>)
    ensures
        hooks@.len() == 0 ==> lines@.len() == 1 && lines@[0]@ == "No webhooks registered."@,
        hooks@.len() > 0 ==> lines@.len() == hooks@.len() && forall|i: int|
            0 <= i < hooks@.len() ==> #[trigger] lines@[i]@ == listing_line(hooks@[i]),
{
    let mut lines: Vec<String> = Vec::new();
    if hooks.len() == 0 {
        lines.push(String::from_str("No webhooks registered."));
        return lines;
    }
    let mut i: usize = 0;
    while i < hooks.len()
        invariant
            i <= hooks@.len(),
            lines@.len() == i,
            forall|j: int| 0 <= j < i ==> #[trigger] lines@[j]@ == listing_line(hooks@[j]),
        decreases hooks@.len() - i,
    {
        let mut line = show(&hooks[i].0);
        line.append("  ");
        line.append(show(&hooks[i].1).as_str());
        lines.push(line);
        i = i + 1;
    }
    lines
}

/// The webhook URL under a public base URL.
pub open spec fn webhook_url_text(base: Seq<char>, secret: Seq<char>) -> Seq<char> {
    trim_end_char(base, '/') + "/webhook/monzo/"@ + secret
}

/// The URL that Monzo is to call: the base URL without trailing slashes,
/// "/webhook/monzo/" and the secret.
pub fn webhook_url(base: &str, secret: &str) -> (url: String)
    ensures
        url@ == webhook_url_text(base@, secret@),
{
    let mut url = trim_end(base, '/');
    url.append("/webhook/monzo/");
    url.append(secret);
    url
}

/// Registers a webhook for the configured account.
pub fn create_request(config: &Config, token: &str, base: &str) -> (r: ApiRequest)
    ensures
        r@ == (RequestView {
            body: None,
            method: Method::Post,
            url: base_url() + "/webhooks"@,
            bearer: Some(token@),
            query: Seq::empty(),
            form: seq![
                ("account_id"@, config.monzo.account_id@),
                ("url"@, webhook_url_text(base@, config.app.secret@)),
            ],
        }),
{
    let mut form = Vec::new();
    form.push(pair("account_id", config.monzo.account_id.clone()));
    form.push(pair("url", webhook_url(base, config.app.secret.as_str())));
    let r = api_request(Method::Post, "/webhooks", token, Vec::new(), form);
    proof {
        assert(r@.query =~= Seq::empty());
        assert(r@.form =~= seq![
            ("account_id"@, config.monzo.account_id@),
            ("url"@, webhook_url_text(base@, config.app.secret@)),
        ]);
    }
    r
}

/// What `webhooks create` prints, given the id and URL of the new webhook.
pub fn created_line(id: &Option<String>, url: &Option<String>) -> (line: String)
    ensures
        line@ == "Created: "@ + shown(*id) + "  "@ + shown(*url),
{
    let mut line = String::from_str("Created: ");
    line.append(show(id).as_str());
    line.append("  ");
    line.append(show(url).as_str());
    line
}

/// Deletes a webhook.
pub fn delete_request(token: &str, id: &str) -> (r: ApiRequest)
    ensures
        r@ == (RequestView {
            body: None,
            method: Method::Delete,
            url: base_url() + "/webhooks/"@ + id@,
            bearer: Some(token@),
            query: Seq::empty(),
            form: Seq::empty(),
        }),
{
    let path = path_with_id("/webhooks/", id, "");
    let r = api_request(Method::Delete, path.as_str(), token, Vec::new(), Vec::new());
    proof {
        reveal_strlit("");
        assert(r@.url =~= base_url() + "/webhooks/"@ + id@);
        assert(r@.query =~= Seq::empty());
        assert(r@.form =~= Seq::empty());
    }
    r
}

/// The event that `webhooks test` sends to the local server.
pub struct TestDelivery {
    pub url: String,
    pub event_type: String,
    pub transaction_id: String,
    pub account_id: String,
    pub amount: i64,
    pub category: String,
}

/// The test event: a created transaction of -500 on the configured account,
/// in the given category ("eating_out" by default), posted to the local
/// server's webhook URL.
pub fn test_delivery(config: &Config, category: Option<String>) -> (d: TestDelivery)
    ensures
        d.url@ == "http://localhost:"@ + decimal(config.app.port as nat) + "/webhook/monzo/"@ + config.app.secret@,
        d.event_type@ == "transaction.created"@,
        d.transaction_id@ == "tx_test_000000000000"@,
        d.account_id@ == config.monzo.account_id@,
        d.amount == -500,
        d.category@ == text_or(category, "eating_out"@),
{
    let mut url = String::from_str("http://localhost:");
    url.append(decimal_string(config.app.port as u128).as_str());
    url.append("/webhook/monzo/");
    url.append(config.app.secret.as_str());
    let category = match category {
        Some(c) => c,
        None => String::from_str("eating_out"),
    };
    TestDelivery {
        url,
        event_type: String::from_str("transaction.created"),
        transaction_id: String::from_str("tx_test_000000000000"),
        account_id: config.monzo.account_id.clone(),
        amount: -500,
        category,
    }
}

/// The usage notes of the `webhooks` tool.
pub open spec fn usage_text() -> Seq<char> {
    "Usage: webhooks <list|create <url>|delete <id>|test [category]>"@
}

pub open spec fn create_usage_text() -> Seq<char> {
    "Usage: webhooks create <base_url>  (e.g. https://my-tunnel.example.com)"@
}

pub open spec fn delete_usage_text() -> Seq<char> {
    "Usage: webhooks delete <webhook_id>"@
}

/// Reads the command line of the `webhooks` tool (the program name first):
/// `list`, `create <base_url>`, `delete <id>` or `test [category]`; anything
/// else is refused with the usage note that fits.
pub fn parse_invocation(args: &Vec<String>) -> (r: Result<WebhooksCommand, String>)
    ensures
        args@.len() < 2 ==> (r matches Err(m) && m@ == usage_text()),
        args@.len() >= 2 ==> {
            let word = args@[1]@;
            if word == "list"@ {
                r matches Ok(WebhooksCommand::List)
            } else if word == "create"@ {
                if args@.len() >= 3 {
                    r matches Ok(WebhooksCommand::Create { base_url }) && base_url@ == args@[2]@
                } else {
                    r matches Err(m) && m@ == create_usage_text()
                }
            } else if word == "delete"@ {
                if args@.len() >= 3 {
                    r matches Ok(WebhooksCommand::Delete { id }) && id@ == args@[2]@
                } else {
                    r matches Err(m) && m@ == delete_usage_text()
                }
            } else if word == "test"@ {
                r matches Ok(WebhooksCommand::Test { category }) && (if args@.len() >= 3 {
                    category matches Some(c) && c@ == args@[2]@
                } else {
                    category is None
                })
            } else {
                r matches Err(m) && m@ == usage_text()
            }
        },
{
    if args.len() < 2 {
        return Err(String::from_str("Usage: webhooks <list|create <url>|delete <id>|test [category]>"));
    }
    let word = args[1].as_str();
    let operand = if args.len() >= 3 {
        Some(args[2].clone())
    } else {
        None
    };
    if text_eq(word, "list") {
        Ok(WebhooksCommand::List)
    } else if text_eq(word, "create") {
        match operand {
            Some(base_url) => Ok(WebhooksCommand::Create { base_url }),
            None => Err(String::from_str("Usage: webhooks create <base_url>  (e.g. https://my-tunnel.example.com)")),
        }
    } else if text_eq(word, "delete") {
        match operand {
            Some(id) => Ok(WebhooksCommand::Delete { id }),
            None => Err(String::from_str("Usage: webhooks delete <webhook_id>")),
        }
    } else if text_eq(word, "test") {
        Ok(WebhooksCommand::Test { category: operand })
    } else {
        Err(String::from_str("Usage: webhooks <list|create <url>|delete <id>|test [category]>"))
    }
}

/// Law: trailing slashes on the public base URL do not change the webhook
/// URL.
pub proof fn lemma_trailing_slash_ignored(base: Seq<char>, secret: Seq<char>)
    ensures
        webhook_url_text(base.push('/'), secret) == webhook_url_text(base, secret),
{
    assert(base.push('/').drop_last() =~= base);
}

} // verus!
