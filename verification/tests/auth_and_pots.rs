use monzoboiii::auth::{callback_reply, reauth_url};
use monzoboiii::config::{AppConfig, Config, MonzoConfig, Tokens};
use monzoboiii::monzo::{tokens_from_grant, Grant, MonzoApi};
use monzoboiii::pots::{build_pot_map, build_pot_map_from_categories, is_spending_category, pot_category, spending_category_names, Pot, PotMap};
use monzoboiii::text::{decimal_string, ends_with, join, split_once, text_eq, trim_end, underscore_spaces};

fn test_config() -> Config {
    Config {
        app: AppConfig {
            secret: "test_secret".to_string(),
            port: 0,
            redirect_uri: "http://localhost/callback".to_string(),
        },
        monzo: MonzoConfig {
            client_id: "client_id".to_string(),
            client_secret: "client_secret".to_string(),
            account_id: "acc_123".to_string(),
        },
    }
}

fn pot(id: &str, name: &str, deleted: bool) -> Pot {
    Pot { id: id.to_string(), name: name.to_string(), deleted }
}

#[test]
fn reauth_url_carries_expected_params() {
    let location = reauth_url(&test_config());
    assert!(location.starts_with("https://auth.monzo.com/"));
    assert!(location.contains("client_id=client_id"));
    assert!(location.contains("response_type=code"));
    assert!(location.contains("redirect_uri=http%3A%2F%2Flocalhost%2Fcallback"));
    assert!(location.contains("state="));
    assert_eq!(
        location,
        "https://auth.monzo.com/?client_id=client_id&redirect_uri=http%3A%2F%2Flocalhost%2Fcallback&response_type=code&state=6dbd8dnd9dj"
    );
}

#[test]
fn url_encoding_keeps_unreserved_and_escapes_the_rest() {
    let mut config = test_config();
    config.app.redirect_uri = "a-Z_0.9~ b/c?é".to_string();
    assert_eq!(
        reauth_url(&config),
        "https://auth.monzo.com/?client_id=client_id&redirect_uri=a-Z_0.9~%20b%2Fc%3F%C3%A9&response_type=code&state=6dbd8dnd9dj"
    );
}

#[test]
fn callback_answers() {
    let ok = callback_reply(true);
    assert_eq!(ok.status, 200);
    assert_eq!(ok.message, "Authenticated — you can close this tab.");
    let failed = callback_reply(false);
    assert_eq!(failed.status, 500);
    assert_eq!(failed.message, "Auth failed — check logs.");
}

#[test]
fn exchange_with_both_tokens_gives_the_pair() {
    let t = tokens_from_grant(Grant::Exchange, Some("new_access".to_string()), Some("new_refresh".to_string()));
    let t = t.ok().expect("both tokens present");
    assert_eq!(t.access_token, "new_access");
    assert_eq!(t.refresh_token, "new_refresh");
}

#[test]
fn exchange_without_access_token_fails_and_stores_nothing() {
    match tokens_from_grant(Grant::Exchange, None, None) {
        Err(e) => assert_eq!(e.message(), "Missing access_token in exchange response"),
        Ok(_) => panic!("no tokens should come of an error reply"),
    }
    match tokens_from_grant(Grant::Exchange, Some("a".to_string()), None) {
        Err(e) => assert_eq!(e.message(), "Missing refresh_token in exchange response"),
        Ok(_) => panic!("no tokens should come of an incomplete reply"),
    }
}

#[test]
fn refresh_without_access_token_points_at_reauth() {
    match tokens_from_grant(Grant::Refresh, None, Some("r".to_string())) {
        Err(e) => assert_eq!(e.message(), "Missing access_token in refresh response — re-auth needed at /auth/reauth"),
        Ok(_) => panic!("expected an error"),
    }
    match tokens_from_grant(Grant::Refresh, Some("a".to_string()), None) {
        Err(e) => assert_eq!(e.message(), "Missing refresh_token in refresh response"),
        Ok(_) => panic!("expected an error"),
    }
}

#[test]
fn token_requests_carry_the_grant() {
    let api = MonzoApi::new(test_config());
    assert_eq!(api.base_url, "https://api.monzo.com");
    let r = api.refresh_request("rt");
    assert_eq!(r.url, "https://api.monzo.com/oauth2/token");
    assert!(r.bearer.is_none());
    let form: Vec<(&str, &str)> = r.form.iter().map(|(k, v)| (k.as_str(), v.as_str())).collect();
    assert_eq!(
        form,
        vec![("grant_type", "refresh_token"), ("client_id", "client_id"), ("client_secret", "client_secret"), ("refresh_token", "rt")]
    );
    let e = api.exchange_request("auth_code_123");
    let form: Vec<(&str, &str)> = e.form.iter().map(|(k, v)| (k.as_str(), v.as_str())).collect();
    assert_eq!(
        form,
        vec![
            ("grant_type", "authorization_code"),
            ("client_id", "client_id"),
            ("client_secret", "client_secret"),
            ("redirect_uri", "http://localhost/callback"),
            ("code", "auth_code_123"),
        ]
    );
}

#[test]
fn default_tokens_are_empty() {
    let t = Tokens::default();
    assert!(t.access_token.is_empty() && t.refresh_token.is_empty());
    assert!(!t.is_authenticated());
}

#[test]
fn pot_names_stand_for_categories() {
    assert_eq!(pot_category("Eating out"), "eating_out");
    assert_eq!(pot_category("Personal Care"), "personal_care");
    assert!(is_spending_category("groceries"));
    assert!(is_spending_category("bills"));
    assert!(!is_spending_category("old_groceries"));
}

#[test]
fn pot_map_keeps_live_spending_pots_only() {
    let map = build_pot_map(&vec![
        pot("pot_123", "groceries", false),
        pot("pot_124", "old_groceries", true),
        pot("pot_125", "Eating out", false),
        pot("pot_126", "Holiday fund", false),
        pot("pot_127", "transport", true),
    ]);
    assert_eq!(map.len(), 2);
    assert_eq!(map.lookup("groceries").as_deref(), Some("pot_123"));
    assert_eq!(map.lookup("eating_out").as_deref(), Some("pot_125"));
    assert_eq!(map.lookup("transport"), None);
    assert_eq!(map.lookup("holiday_fund"), None);
}

#[test]
fn later_pot_of_a_category_wins() {
    let map = build_pot_map(&vec![pot("pot_1", "groceries", false), pot("pot_2", "Groceries", false)]);
    assert_eq!(map.len(), 1);
    assert_eq!(map.lookup("groceries").as_deref(), Some("pot_2"));
}

#[test]
fn empty_pot_map() {
    let map = PotMap::new();
    assert_eq!(map.len(), 0);
    assert_eq!(map.lookup("general"), None);
}

#[test]
fn category_list_in_order() {
    assert_eq!(
        join(&spending_category_names(), ", "),
        "general, eating_out, expenses, transport, cash, bills, entertainment, shopping, holidays, groceries, family, charity, personal_care, savings"
    );
}

#[test]
fn text_helpers() {
    assert_eq!(decimal_string(0), "0");
    assert_eq!(decimal_string(1234567890), "1234567890");
    assert_eq!(decimal_string(u128::MAX), "340282366920938463463374607431768211455");
    assert_eq!(underscore_spaces("a b  c"), "a_b__c");
    assert!(text_eq("x", "x") && !text_eq("x", "y"));
    assert!(ends_with("https://h/webhook/monzo/s", "/webhook/monzo/s"));
    assert!(!ends_with("s", "/webhook/monzo/s"));
    assert_eq!(trim_end("https://example.com///", '/'), "https://example.com");
    assert_eq!(split_once("k=v=w", '='), Some(("k".to_string(), "v=w".to_string())));
    assert_eq!(split_once("kv", '='), None);
    assert_eq!(join(&Vec::<String>::new(), ", "), "");
}

fn percent_decode(s: &str) -> Vec<u8> {
    let b = s.as_bytes();
    let mut out = Vec::new();
    let mut i = 0;
    while i < b.len() {
        if b[i] == b'%' && i + 2 < b.len() {
            let hex = std::str::from_utf8(&b[i + 1..i + 3]).unwrap();
            out.push(u8::from_str_radix(hex, 16).unwrap());
            i += 3;
        } else {
            out.push(b[i]);
            i += 1;
        }
    }
    out
}

#[test]
fn reauth_redirect_value_decodes_to_the_redirect_uri() {
    let mut config = test_config();
    config.app.redirect_uri = "https://example.com/auth/callback?x=1&y=é ü".to_string();
    let location = reauth_url(&config);
    let query = location.strip_prefix("https://auth.monzo.com/?").unwrap();
    let params: Vec<(&str, &str)> = query.split('&').map(|kv| kv.split_once('=').unwrap()).collect();
    assert_eq!(params.len(), 4);
    assert_eq!(params[0], ("client_id", "client_id"));
    assert_eq!(params[1].0, "redirect_uri");
    assert_eq!(String::from_utf8(percent_decode(params[1].1)).unwrap(), config.app.redirect_uri);
    assert_eq!(params[2], ("response_type", "code"));
    assert_eq!(params[3].0, "state");
}

#[test]
fn pot_map_from_given_categories() {
    let pots = vec![
        pot("pot_1", "Anything", false),
        pot("pot_2", "Whatever", true),
        pot("pot_3", "Other", false),
        pot("pot_4", "Later", false),
    ];
    let categories = vec![
        "groceries".to_string(),
        "transport".to_string(),
        "not_a_category".to_string(),
        "groceries".to_string(),
    ];
    let map = build_pot_map_from_categories(&pots, &categories);
    assert_eq!(map.len(), 1);
    assert_eq!(map.lookup("groceries"), Some("pot_4".to_string()));
    assert_eq!(map.lookup("transport"), None);
    assert_eq!(map.lookup("not_a_category"), None);
}
