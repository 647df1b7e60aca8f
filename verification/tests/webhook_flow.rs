use monzoboiii::config::{AppConfig, Config, MonzoConfig};
use monzoboiii::http::{ApiRequest, Method};
use monzoboiii::monzo::{CallReply, MonzoApi, PotRefresh, PotRefreshStep, PotsReply, WithdrawFlow, WithdrawStep};
use monzoboiii::pots::{build_pot_map, Pot};
use monzoboiii::webhook::{
    action_after_parse, cover_status, decide_webhook, none_if_empty, unknown_field_warning, HandlerStep, JsonKind, TransactionFacts,
    WebhookAction, WebhookEvent, WebhookHandler,
};

fn test_config() -> Config {
    Config {
        app: AppConfig {
            secret: "test_secret".to_string(),
            port: 0,
            redirect_uri: "http://localhost/callback".to_string(),
        },
        monzo: MonzoConfig {
            client_id: "client_id".to_string(),
            client_secret: "client_secret".to_string(),
            account_id: "acc_123".to_string(),
        },
    }
}

fn mock_api() -> MonzoApi {
    MonzoApi::new(test_config()).with_base_url("http://127.0.0.1:9".to_string())
}

fn pot(id: &str, name: &str, deleted: bool) -> Pot {
    Pot { id: id.to_string(), name: name.to_string(), deleted }
}

fn mock_pots() -> Vec<Pot> {
    vec![pot("pot_123", "groceries", false), pot("pot_124", "old_groceries", true), pot("pot_125", "Eating out", false)]
}

/// A created Mastercard transaction eligible for pot cover: -500 in eating_out.
fn facts() -> TransactionFacts {
    TransactionFacts {
        id: "tx_001".to_string(),
        account_id: "acc_123".to_string(),
        amount: -500,
        category: "eating_out".to_string(),
        scheme: "mastercard".to_string(),
        eligible_for_pot_cover: Some("true".to_string()),
    }
}

fn event(event_type: &str, data: TransactionFacts) -> WebhookEvent {
    WebhookEvent { event_type: event_type.to_string(), data }
}

fn form_value(req: &ApiRequest, name: &str) -> Option<String> {
    req.form.iter().find(|(k, _)| k == name).map(|(_, v)| v.clone())
}

/// Runs the handler up to its first answer or request, given a JSON body.
fn deliver(secret: &str, payload: Option<WebhookEvent>, pots: Vec<Pot>) -> (WebhookHandler, HandlerStep) {
    let api = mock_api();
    let map = build_pot_map(&pots);
    let (mut handler, first) = WebhookHandler::start(b"{\"type\":\"transaction.created\"}");
    assert!(matches!(first, HandlerStep::DecodePayload));
    let step = handler.on_payload(&api, &map, secret, payload, "access");
    (handler, step)
}

fn assert_status(step: &HandlerStep, expected: u16) {
    match step {
        HandlerStep::Respond(s) => assert_eq!(*s, expected),
        _ => panic!("expected an answer of {expected}"),
    }
}

#[test]
fn covered_spend_withdraws_from_matching_pot() {
    let (mut handler, step) = deliver("test_secret", Some(event("transaction.created", facts())), mock_pots());
    let req = match step {
        HandlerStep::Send(req) => req,
        _ => panic!("expected a withdrawal"),
    };
    assert!(req.method == Method::Put);
    assert_eq!(req.url, "http://127.0.0.1:9/pots/pot_125/withdraw");
    assert_eq!(req.bearer.as_deref(), Some("access"));
    assert_eq!(form_value(&req, "amount").as_deref(), Some("500"));
    assert_eq!(form_value(&req, "dedupe_id").as_deref(), Some("tx_001"));
    assert_eq!(form_value(&req, "destination_account_id").as_deref(), Some("acc_123"));
    assert_status(&handler.on_withdraw_reply(CallReply::Status(200)), 200);
}

#[test]
fn wrong_secret_is_forbidden_without_withdrawal() {
    let mut data = facts();
    data.category = "groceries".to_string();
    let (_, step) = deliver("wrong_secret", Some(event("transaction.created", data)), mock_pots());
    assert_status(&step, 403);
}

#[test]
fn other_event_type_is_acknowledged_without_withdrawal() {
    let mut data = facts();
    data.category = "groceries".to_string();
    let (_, step) = deliver("test_secret", Some(event("transaction.updated", data)), mock_pots());
    assert_status(&step, 200);
}

#[test]
fn other_account_is_forbidden_without_withdrawal() {
    let mut data = facts();
    data.account_id = "acc_other".to_string();
    data.category = "groceries".to_string();
    let (_, step) = deliver("test_secret", Some(event("transaction.created", data)), mock_pots());
    assert_status(&step, 403);
}

#[test]
fn category_without_pot_is_acknowledged_without_withdrawal() {
    let mut data = facts();
    data.category = "bad_category".to_string();
    data.amount = -300;
    let (_, step) = deliver("test_secret", Some(event("transaction.created", data)), mock_pots());
    assert_status(&step, 200);
}

#[test]
fn other_scheme_is_acknowledged_without_withdrawal() {
    let mut data = facts();
    data.scheme = "uk_retail_pot".to_string();
    let (_, step) = deliver("test_secret", Some(event("transaction.created", data)), mock_pots());
    assert_status(&step, 200);
}

#[test]
fn not_eligible_is_acknowledged_without_withdrawal() {
    let mut data = facts();
    data.eligible_for_pot_cover = Some("false".to_string());
    let (_, step) = deliver("test_secret", Some(event("transaction.created", data)), mock_pots());
    assert_status(&step, 200);
}

#[test]
fn missing_eligibility_is_acknowledged_without_withdrawal() {
    let mut data = facts();
    data.eligible_for_pot_cover = None;
    let (_, step) = deliver("test_secret", Some(event("transaction.created", data)), mock_pots());
    assert_status(&step, 200);
}

#[test]
fn refund_is_acknowledged_without_withdrawal() {
    let mut data = facts();
    data.amount = 500;
    let (_, step) = deliver("test_secret", Some(event("transaction.created", data)), mock_pots());
    assert_status(&step, 200);
}

#[test]
fn deleted_pot_is_not_withdrawn_from() {
    let mut data = facts();
    data.category = "groceries".to_string();
    let (_, step) =
        deliver("test_secret", Some(event("transaction.created", data)), vec![pot("pot_999", "groceries", true)]);
    assert_status(&step, 200);
}

#[test]
fn body_that_is_not_json_is_a_bad_request() {
    let (handler, step) = WebhookHandler::start(b"not json");
    assert_status(&step, 400);
    assert!(handler.flow.is_none());
}

#[test]
fn body_missing_a_field_is_a_bad_request() {
    let (_, step) = deliver("test_secret", None, mock_pots());
    assert_status(&step, 400);
}

#[test]
fn expired_token_is_refreshed_once_and_withdrawal_retried() {
    let mut data = facts();
    data.category = "groceries".to_string();
    let (mut handler, step) = deliver("test_secret", Some(event("transaction.created", data)), mock_pots());
    assert!(matches!(step, HandlerStep::Send(_)));
    assert!(matches!(handler.on_withdraw_reply(CallReply::Status(401)), HandlerStep::RefreshTokens));
    let retry = match handler.on_refresh(&mock_api(), Ok("refreshed_token".to_string())) {
        HandlerStep::Send(req) => req,
        _ => panic!("expected the withdrawal to be sent again"),
    };
    assert_eq!(retry.bearer.as_deref(), Some("refreshed_token"));
    assert_eq!(retry.url, "http://127.0.0.1:9/pots/pot_123/withdraw");
    assert_status(&handler.on_withdraw_reply(CallReply::Status(200)), 200);
}

#[test]
fn second_unauthorized_reply_fails_without_another_refresh() {
    let (mut handler, _) = deliver("test_secret", Some(event("transaction.created", facts())), mock_pots());
    assert!(matches!(handler.on_withdraw_reply(CallReply::Status(401)), HandlerStep::RefreshTokens));
    assert!(matches!(handler.on_refresh(&mock_api(), Ok("t2".to_string())), HandlerStep::Send(_)));
    assert_status(&handler.on_withdraw_reply(CallReply::Status(401)), 500);
}

#[test]
fn failed_refresh_is_a_server_error() {
    let (mut handler, _) = deliver("test_secret", Some(event("transaction.created", facts())), mock_pots());
    assert!(matches!(handler.on_withdraw_reply(CallReply::Status(401)), HandlerStep::RefreshTokens));
    assert_status(&handler.on_refresh(&mock_api(), Err("Missing refresh_token".to_string())), 500);
}

#[test]
fn rejected_withdrawal_is_a_server_error() {
    let (mut handler, _) = deliver("test_secret", Some(event("transaction.created", facts())), mock_pots());
    assert_status(&handler.on_withdraw_reply(CallReply::Status(422)), 500);
}

#[test]
fn unreachable_api_is_a_server_error() {
    let (mut handler, _) = deliver("test_secret", Some(event("transaction.created", facts())), mock_pots());
    assert_status(&handler.on_withdraw_reply(CallReply::Transport("connection refused".to_string())), 500);
}

#[test]
fn withdraw_flow_reports_errors_with_their_messages() {
    let map = build_pot_map(&mock_pots());
    let (flow, step) = WithdrawFlow::start(&mock_api(), &map, "groceries", 100, "tx_9", "tok");
    let mut flow = flow.expect("groceries has a pot");
    assert!(matches!(step, WithdrawStep::Send(_)));
    match flow.on_reply(CallReply::Status(500)) {
        WithdrawStep::Finish(Err(e)) => assert_eq!(e.message(), "Monzo pot withdrawal failed"),
        _ => panic!("expected a failure"),
    }
    let (none, step) = WithdrawFlow::start(&mock_api(), &map, "transport", 100, "tx_9", "tok");
    assert!(none.is_none());
    assert!(matches!(step, WithdrawStep::Finish(Ok(false))));
}

#[test]
fn unauthorized_after_refresh_reads_401() {
    let map = build_pot_map(&mock_pots());
    let (flow, _) = WithdrawFlow::start(&mock_api(), &map, "groceries", 100, "tx_9", "tok");
    let mut flow = flow.unwrap();
    assert!(matches!(flow.on_reply(CallReply::Status(401)), WithdrawStep::RefreshTokens));
    assert!(matches!(flow.on_refresh(&mock_api(), Ok("new".to_string())), WithdrawStep::Send(_)));
    match flow.on_reply(CallReply::Status(401)) {
        WithdrawStep::Finish(Err(e)) => assert_eq!(e.message(), "401 Unauthorized"),
        _ => panic!("expected a failure"),
    }
}

#[test]
fn pot_map_refresh_recovers_after_401() {
    let api = mock_api();
    let (mut refresh, first) = PotRefresh::start(&api, "stale");
    match first {
        PotRefreshStep::Send(req) => {
            assert!(req.method == Method::Get);
            assert_eq!(req.url, "http://127.0.0.1:9/pots");
            assert_eq!(req.query, vec![("current_account_id".to_string(), "acc_123".to_string())]);
            assert_eq!(req.bearer.as_deref(), Some("stale"));
        },
        _ => panic!("expected the listing"),
    }
    let step = refresh.on_reply(PotsReply::Listed { status: 401, pots: Err("error decoding response body".to_string()) });
    assert!(matches!(step, PotRefreshStep::RefreshTokens));
    match refresh.on_refresh(&api, Ok("refreshed_token".to_string())) {
        PotRefreshStep::Send(req) => assert_eq!(req.bearer.as_deref(), Some("refreshed_token")),
        _ => panic!("expected the listing again"),
    }
    let done = refresh.on_reply(PotsReply::Listed { status: 200, pots: Ok(vec![pot("pot_123", "groceries", false)]) });
    match done {
        PotRefreshStep::Finish(Ok(map)) => {
            assert_eq!(map.lookup("groceries").as_deref(), Some("pot_123"));
            assert_eq!(map.len(), 1);
        },
        _ => panic!("expected a map"),
    }
}

#[test]
fn unreadable_pot_list_fails_the_refresh() {
    let api = mock_api();
    let (mut refresh, _) = PotRefresh::start(&api, "tok");
    match refresh.on_reply(PotsReply::Listed { status: 500, pots: Err("error decoding response body".to_string()) }) {
        PotRefreshStep::Finish(Err(m)) => assert_eq!(m, "error decoding response body"),
        _ => panic!("expected a failure"),
    }
}

#[test]
fn decision_for_qualifying_spend_is_cover_of_positive_amount() {
    match decide_webhook(&test_config(), "test_secret", Some(event("transaction.created", facts()))) {
        WebhookAction::Cover { category, amount, dedupe_id } => {
            assert_eq!(category, "eating_out");
            assert_eq!(amount, 500);
            assert_eq!(dedupe_id, "tx_001");
        },
        _ => panic!("expected a cover"),
    }
}

#[test]
fn cover_of_smallest_amount_does_not_overflow() {
    let mut data = facts();
    data.amount = i64::MIN;
    match decide_webhook(&test_config(), "test_secret", Some(event("transaction.created", data))) {
        WebhookAction::Cover { amount, .. } => assert_eq!(amount, 9_223_372_036_854_775_808u64),
        _ => panic!("expected a cover"),
    }
}

#[test]
fn cover_outcome_statuses() {
    assert_eq!(cover_status(&Ok(true)), 200);
    assert_eq!(cover_status(&Ok(false)), 200);
    assert_eq!(cover_status(&Err(monzoboiii::monzo::WithdrawError::Unauthorized)), 500);
}

#[test]
fn empty_settled_reads_as_absent() {
    assert_eq!(none_if_empty(String::new()), None);
    assert_eq!(none_if_empty("2026-01-01".to_string()), Some("2026-01-01".to_string()));
}

#[test]
fn unknown_field_warning_names_the_type() {
    assert_eq!(
        unknown_field_warning("TransactionData", "tab", JsonKind::Object, "{}"),
        "Unknown field in TransactionData: tab (object) = {}"
    );
}

#[test]
fn parse_outcome_decides_first_step() {
    assert!(matches!(action_after_parse(true), WebhookAction::DecodePayload));
    assert!(matches!(action_after_parse(false), WebhookAction::Respond(400)));
    let (_, step) = WebhookHandler::start_parsed(true);
    assert!(matches!(step, HandlerStep::DecodePayload));
    let (_, step) = WebhookHandler::start_parsed(false);
    assert!(matches!(step, HandlerStep::Respond(400)));
}
