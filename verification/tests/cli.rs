use monzoboiii::cli::accounts::{accounts_request, AccountsArgs};
use monzoboiii::cli::attachments::{attachments_request, AttachmentsCommand};
use monzoboiii::cli::balance::{balance_request, BalanceArgs};
use monzoboiii::cli::common::check_authenticated;
use monzoboiii::cli::diagnose::{
    check_accounts, check_config, check_identity, check_pots, check_tokens, check_webhooks, fail, hint, ok, warn, Next,
    PotListing, Probe,
};
use monzoboiii::cli::feed::{feed_request, FeedArgs};
use monzoboiii::cli::logout::{logged_out_tokens, logout_request};
use monzoboiii::cli::pots::{dedupe_id_for_reading, dedupe_id_from_nanos, generate_dedupe_id, plan, PotsCommand};
use monzoboiii::cli::receipts::{receipt_create_request, receipt_request_with_body, receipts_request, ReceiptsCommand};
use monzoboiii::cli::transactions::{annotation_form, get_request, list_request, annotate_request};
use monzoboiii::cli::webhooks::{
    create_request, created_line, delete_request, listing_lines, parse_invocation, test_delivery, webhook_url,
    WebhooksCommand,
};
use monzoboiii::cli::whoami::whoami_request;
use monzoboiii::config::{AppConfig, Config, MonzoConfig, Tokens};
use monzoboiii::http::{ApiRequest, Method};

fn test_config() -> Config {
    Config {
        app: AppConfig {
            secret: "test_secret".to_string(),
            port: 3000,
            redirect_uri: "http://localhost/callback".to_string(),
        },
        monzo: MonzoConfig {
            client_id: "client_id".to_string(),
            client_secret: "client_secret".to_string(),
            account_id: "acc_123".to_string(),
        },
    }
}

fn tokens(access: &str) -> Tokens {
    Tokens { access_token: access.to_string(), refresh_token: "r".to_string() }
}

fn pairs(v: &[(String, String)]) -> Vec<(&str, &str)> {
    v.iter().map(|(k, v)| (k.as_str(), v.as_str())).collect()
}

fn assert_call(r: &ApiRequest, method: Method, url: &str) {
    assert!(r.method == method);
    assert_eq!(r.url, url);
    assert_eq!(r.bearer.as_deref(), Some("tok"));
}

fn strs(v: &[String]) -> Vec<&str> {
    v.iter().map(|s| s.as_str()).collect()
}

#[test]
fn commands_need_an_access_token() {
    assert!(check_authenticated(&test_config(), &tokens("tok")).is_ok());
    assert_eq!(
        check_authenticated(&test_config(), &tokens("")).unwrap_err(),
        "Not authenticated — start the server and visit http://localhost:3000/auth/reauth"
    );
}

#[test]
fn accounts_and_balance_requests() {
    let r = accounts_request(&AccountsArgs { account_type: Some("uk_retail".to_string()) }, "tok");
    assert_call(&r, Method::Get, "https://api.monzo.com/accounts");
    assert_eq!(pairs(&r.query), vec![("account_type", "uk_retail")]);
    assert!(accounts_request(&AccountsArgs { account_type: None }, "tok").query.is_empty());
    let b = balance_request(BalanceArgs { account_id: None }, &test_config(), "tok");
    assert_call(&b, Method::Get, "https://api.monzo.com/balance");
    assert_eq!(pairs(&b.query), vec![("account_id", "acc_123")]);
    let b = balance_request(BalanceArgs { account_id: Some("acc_9".to_string()) }, &test_config(), "tok");
    assert_eq!(pairs(&b.query), vec![("account_id", "acc_9")]);
}

#[test]
fn attachment_requests() {
    let up = attachments_request(
        AttachmentsCommand::Upload {
            file_name: "receipt.jpg".to_string(),
            file_type: "image/jpeg".to_string(),
            content_length: 2048,
        },
        "tok",
    );
    assert_call(&up, Method::Post, "https://api.monzo.com/attachment/upload");
    assert_eq!(pairs(&up.form), vec![("file_name", "receipt.jpg"), ("file_type", "image/jpeg"), ("content_length", "2048")]);
    let reg = attachments_request(
        AttachmentsCommand::Register {
            transaction_id: "tx_1".to_string(),
            file_url: "https://f/x.jpg".to_string(),
            file_type: "image/jpeg".to_string(),
        },
        "tok",
    );
    assert_eq!(pairs(&reg.form), vec![("external_id", "tx_1"), ("file_url", "https://f/x.jpg"), ("file_type", "image/jpeg")]);
    let de = attachments_request(AttachmentsCommand::Deregister { id: "attach_1".to_string() }, "tok");
    assert_call(&de, Method::Post, "https://api.monzo.com/attachment/deregister");
    assert_eq!(pairs(&de.form), vec![("id", "attach_1")]);
}

#[test]
fn feed_form_in_order() {
    let args = FeedArgs {
        title: "Hi".to_string(),
        image_url: "https://i/x.png".to_string(),
        body: Some("Body".to_string()),
        url: Some("https://u".to_string()),
        background_color: None,
        title_color: Some("#FF0000".to_string()),
        body_color: None,
        account_id: None,
    };
    let r = feed_request(args, &test_config(), "tok");
    assert_call(&r, Method::Post, "https://api.monzo.com/feed");
    assert_eq!(
        pairs(&r.form),
        vec![
            ("account_id", "acc_123"),
            ("type", "basic"),
            ("params[title]", "Hi"),
            ("params[image_url]", "https://i/x.png"),
            ("url", "https://u"),
            ("params[body]", "Body"),
            ("params[title_color]", "#FF0000"),
        ]
    );
}

#[test]
fn logout_and_whoami() {
    assert_call(&logout_request("tok"), Method::Post, "https://api.monzo.com/oauth2/logout");
    assert_call(&whoami_request("tok"), Method::Get, "https://api.monzo.com/ping/whoami");
    let t = logged_out_tokens();
    assert!(t.access_token.is_empty() && t.refresh_token.is_empty());
}

#[test]
fn pot_transfers() {
    let list = plan(PotsCommand::List, &test_config(), "tok");
    assert_call(&list, Method::Get, "https://api.monzo.com/pots");
    assert_eq!(pairs(&list.query), vec![("current_account_id", "acc_123")]);
    let dep = plan(
        PotsCommand::Deposit {
            pot_id: "pot_1".to_string(),
            amount: 1250,
            dedupe_id: Some("key".to_string()),
            source_account_id: None,
        },
        &test_config(),
        "tok",
    );
    assert_call(&dep, Method::Put, "https://api.monzo.com/pots/pot_1/deposit");
    assert_eq!(pairs(&dep.form), vec![("source_account_id", "acc_123"), ("amount", "1250"), ("dedupe_id", "key")]);
    let wd = plan(
        PotsCommand::Withdraw {
            pot_id: "pot_1".to_string(),
            amount: 7,
            dedupe_id: None,
            destination_account_id: Some("acc_9".to_string()),
        },
        &test_config(),
        "tok",
    );
    assert_call(&wd, Method::Put, "https://api.monzo.com/pots/pot_1/withdraw");
    assert_eq!(pairs(&wd.form)[0], ("destination_account_id", "acc_9"));
    assert_eq!(pairs(&wd.form)[1], ("amount", "7"));
    assert!(wd.form[2].1.starts_with("monzoctl-"));
}

#[test]
fn dedupe_ids() {
    assert_eq!(dedupe_id_from_nanos(1700000000123456789), "monzoctl-1700000000123456789");
    let id = generate_dedupe_id();
    let digits = id.strip_prefix("monzoctl-").expect("prefix");
    assert!(!digits.is_empty() && digits.chars().all(|c| c.is_ascii_digit()));
    assert!(digits.parse::<u128>().unwrap() > 0);
}

#[test]
fn receipt_requests() {
    let c = receipts_request(&ReceiptsCommand::Create { file: "r.json".to_string() }, "tok");
    assert_call(&c, Method::Put, "https://api.monzo.com/transaction-receipts");
    let g = receipts_request(&ReceiptsCommand::Get { external_id: "ext".to_string() }, "tok");
    assert_call(&g, Method::Get, "https://api.monzo.com/transaction-receipts");
    assert_eq!(pairs(&g.query), vec![("external_id", "ext")]);
    let d = receipts_request(&ReceiptsCommand::Delete { external_id: "ext".to_string() }, "tok");
    assert!(d.method == Method::Delete);
}

#[test]
fn transaction_requests() {
    let l = list_request(
        &test_config(),
        "tok",
        None,
        Some("2026-01-01T00:00:00Z".to_string()),
        None,
        Some(50),
        true,
    );
    assert_call(&l, Method::Get, "https://api.monzo.com/transactions");
    assert_eq!(
        pairs(&l.query),
        vec![("account_id", "acc_123"), ("since", "2026-01-01T00:00:00Z"), ("limit", "50"), ("expand[]", "merchant")]
    );
    let g = get_request("tok", "tx_1", false);
    assert_call(&g, Method::Get, "https://api.monzo.com/transactions/tx_1");
    assert!(g.query.is_empty());
    assert_eq!(pairs(&get_request("tok", "tx_1", true).query), vec![("expand[]", "merchant")]);
}

#[test]
fn annotations_become_metadata_fields() {
    let form = annotation_form(&vec!["note=lunch=team".to_string(), "tag=".to_string()]).unwrap();
    assert_eq!(pairs(&form), vec![("metadata[note]", "lunch=team"), ("metadata[tag]", "")]);
    let r = annotate_request("tok", "tx_1", form);
    assert_call(&r, Method::Patch, "https://api.monzo.com/transactions/tx_1");
    assert_eq!(
        annotation_form(&vec!["a=1".to_string(), "broken".to_string(), "also".to_string()]).unwrap_err(),
        "Invalid metadata 'broken' — expected KEY=VALUE"
    );
}

#[test]
fn webhook_commands() {
    assert_eq!(webhook_url("https://my-tunnel.example.com//", "s3cret"), "https://my-tunnel.example.com/webhook/monzo/s3cret");
    let c = create_request(&test_config(), "tok", "https://h/");
    assert_call(&c, Method::Post, "https://api.monzo.com/webhooks");
    assert_eq!(pairs(&c.form), vec![("account_id", "acc_123"), ("url", "https://h/webhook/monzo/test_secret")]);
    assert_call(&delete_request("tok", "webhook_1"), Method::Delete, "https://api.monzo.com/webhooks/webhook_1");
    assert_eq!(strs(&listing_lines(&vec![])), vec!["No webhooks registered."]);
    assert_eq!(
        strs(&listing_lines(&vec![(Some("w1".to_string()), None), (None, Some("https://u".to_string()))])),
        vec!["w1  ?", "?  https://u"]
    );
    assert_eq!(created_line(&Some("w1".to_string()), &Some("https://u".to_string())), "Created: w1  https://u");
    let t = test_delivery(&test_config(), None);
    assert_eq!(t.url, "http://localhost:3000/webhook/monzo/test_secret");
    assert_eq!(t.category, "eating_out");
    assert_eq!(t.amount, -500);
    assert_eq!(test_delivery(&test_config(), Some("groceries".to_string())).category, "groceries");
}

#[test]
fn webhooks_tool_arguments() {
    let args = |v: &[&str]| v.iter().map(|s| s.to_string()).collect::<Vec<String>>();
    assert!(matches!(parse_invocation(&args(&["webhooks", "list"])), Ok(WebhooksCommand::List)));
    assert!(matches!(parse_invocation(&args(&["webhooks", "create", "https://h"])), Ok(WebhooksCommand::Create { base_url }) if base_url == "https://h"));
    assert!(matches!(parse_invocation(&args(&["webhooks", "delete", "w1"])), Ok(WebhooksCommand::Delete { id }) if id == "w1"));
    assert!(matches!(parse_invocation(&args(&["webhooks", "test"])), Ok(WebhooksCommand::Test { category: None })));
    assert_eq!(
        parse_invocation(&args(&["webhooks", "create"])).err().unwrap(),
        "Usage: webhooks create <base_url>  (e.g. https://my-tunnel.example.com)"
    );
    assert_eq!(parse_invocation(&args(&["webhooks", "delete"])).err().unwrap(), "Usage: webhooks delete <webhook_id>");
    assert_eq!(
        parse_invocation(&args(&["webhooks"])).err().unwrap(),
        "Usage: webhooks <list|create <url>|delete <id>|test [category]>"
    );
}

#[test]
fn report_line_prefixes() {
    assert_eq!(ok("a"), "[OK]   a");
    assert_eq!(warn("a"), "[WARN] a");
    assert_eq!(fail("a"), "[FAIL] a");
    assert_eq!(hint("a"), "         → a");
}

#[test]
fn diagnostics_of_a_working_setup() {
    let config = test_config();
    let c = check_config(&Ok(test_config()));
    assert_eq!(strs(&c.lines), vec!["=== monzoboiii diagnostics ===", "", "[OK]   Config loaded from /home/ben/.config/monzoboiii/config.toml"]);
    assert!(c.next == Next::CheckIdentity);
    let t = check_tokens(&config, &tokens("tok"));
    assert_eq!(strs(&t.lines), vec!["[OK]   Tokens found"]);
    let i = check_identity(
        &config,
        Probe::Answered { status: 200, status_text: "200 OK".to_string(), body: Some("user_1".to_string()) },
    );
    assert_eq!(strs(&i.lines), vec!["[OK]   Authenticated (user_id: user_1)"]);
    assert!(i.next == Next::ListAccounts);
    let a = check_accounts(
        &config,
        Probe::Answered { status: 200, status_text: "200 OK".to_string(), body: vec![None, Some("acc_123".to_string())] },
    );
    assert_eq!(strs(&a.lines), vec!["[OK]   account_id (acc_123) confirmed"]);
    assert!(a.next == Next::ListPots);
    let listing = |name: &str, id: &str, deleted: Option<bool>| PotListing {
        id: Some(id.to_string()),
        name: Some(name.to_string()),
        deleted,
    };
    let p = check_pots(Probe::Answered {
        status: 200,
        status_text: "200 OK".to_string(),
        body: vec![listing("groceries", "pot_xxx", Some(false)), listing("Transport", "pot_yyy", None), listing("cash", "pot_z", Some(true))],
    });
    assert_eq!(strs(&p.lines), vec!["[OK]   2 spending pot(s) found: groceries (pot_xxx), transport (pot_yyy)"]);
    let w = check_webhooks(
        &config,
        &tokens("tok"),
        Probe::Answered {
            status: 200,
            status_text: "200 OK".to_string(),
            body: vec![Some("https://host/webhook/monzo/test_secret".to_string())],
        },
    );
    assert_eq!(strs(&w.lines), vec!["[OK]   Webhook registered: https://host/webhook/monzo/test_secret", "", "Diagnostics complete."]);
    assert!(w.next == Next::Stop);
}

#[test]
fn diagnostics_of_missing_pieces() {
    let config = test_config();
    let c = check_config(&Err("no such file".to_string()));
    assert_eq!(
        strs(&c.lines)[2..],
        ["[FAIL] Config: no such file", "         → Copy config.toml.example to /home/ben/.config/monzoboiii/config.toml and fill it in"]
    );
    assert!(c.next == Next::Stop);
    let t = check_tokens(&config, &tokens(""));
    assert_eq!(
        strs(&t.lines),
        vec![
            "[WARN] No tokens — not yet authenticated",
            "         → Start the server and visit http://localhost:3000/auth/reauth",
            "",
            "Cannot check the Monzo API without tokens. Authenticate first.",
        ]
    );
    let i = check_identity(&config, Probe::Answered { status: 401, status_text: "401 Unauthorized".to_string(), body: None });
    assert_eq!(
        strs(&i.lines),
        vec!["[FAIL] Auth token is invalid or expired", "         → Visit http://localhost:3000/auth/reauth to re-authenticate"]
    );
    assert!(i.next == Next::Stop);
    let a = check_accounts(
        &config,
        Probe::Answered { status: 200, status_text: "200 OK".to_string(), body: vec![Some("acc_0000AbCdEfGhIjKlMn01".to_string())] },
    );
    assert_eq!(
        strs(&a.lines),
        vec![
            "[FAIL] Configured account_id (acc_123) not found in your accounts",
            "         → Your account IDs: acc_0000AbCdEfGhIjKlMn01",
            "         → Update account_id in /home/ben/.config/monzoboiii/config.toml and restart the server",
            "",
            "Fix account_id before checking pots and webhooks.",
        ]
    );
    let p = check_pots(Probe::Answered { status: 200, status_text: "200 OK".to_string(), body: vec![] });
    assert_eq!(strs(&p.lines)[0], "[WARN] No spending-category pots found");
    let w = check_webhooks(
        &config,
        &tokens("tok"),
        Probe::Answered { status: 200, status_text: "200 OK".to_string(), body: vec![Some("https://old/webhook/monzo/x".to_string()), None] },
    );
    assert_eq!(
        strs(&w.lines),
        vec![
            "[WARN] No webhook registered matching your secret",
            "         → Register one with this curl command (replace YOUR_PUBLIC_HOST):",
            "",
            "  curl -X POST https://api.monzo.com/webhooks \\",
            "    -H 'Authorization: Bearer tok' \\",
            "    -d 'account_id=acc_123' \\",
            "    -d 'url=https://YOUR_PUBLIC_HOST/webhook/monzo/test_secret'",
            "",
            "  Existing webhooks on this account:",
            "    https://old/webhook/monzo/x",
            "    ?",
            "",
            "",
            "Diagnostics complete.",
        ]
    );
    let u = check_webhooks(&config, &tokens("tok"), Probe::Unreachable("timed out".to_string()));
    assert_eq!(strs(&u.lines), vec!["[WARN] Could not reach webhooks endpoint: timed out", "", "Diagnostics complete."]);
}

#[test]
fn dedupe_id_from_clock_readings() {
    assert_eq!(dedupe_id_for_reading(Some(1700000000123456789)), "monzoctl-1700000000123456789");
    assert_eq!(dedupe_id_for_reading(Some(0)), "monzoctl-0");
    assert_eq!(dedupe_id_for_reading(None), "monzoctl-0");
}

#[test]
fn later_reading_gives_larger_key() {
    let earlier = dedupe_id_for_reading(Some(999));
    let later = dedupe_id_for_reading(Some(1000));
    assert_ne!(earlier, later);
    let n1: u128 = earlier.strip_prefix("monzoctl-").unwrap().parse().unwrap();
    let n2: u128 = later.strip_prefix("monzoctl-").unwrap().parse().unwrap();
    assert_eq!((n1, n2), (999, 1000));
    assert!(n1 < n2);
}

#[test]
fn receipt_create_carries_the_receipt_as_json() {
    let text = "{ \"total\": 1250,\n  \"currency\": \"GBP\",  \"external_id\": \"r1\" }";
    let req = receipt_create_request("tok", text).expect("valid JSON");
    assert_call(&req, Method::Put, "https://api.monzo.com/transaction-receipts");
    assert!(req.query.is_empty() && req.form.is_empty());
    assert_eq!(
        String::from_utf8(req.body.clone().unwrap()).unwrap(),
        "{\"currency\":\"GBP\",\"external_id\":\"r1\",\"total\":1250}"
    );
    let direct = receipt_request_with_body("tok", b"[1,2]".to_vec());
    assert_eq!(direct.body, Some(b"[1,2]".to_vec()));
}

#[test]
fn receipt_create_refuses_text_that_is_not_json() {
    assert!(receipt_create_request("tok", "{ not json").is_err());
    assert!(receipt_create_request("tok", "").is_err());
}
