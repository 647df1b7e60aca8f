use vstd::prelude::*;

use crate::config::Config;
use crate::http::{ApiRequest, is_error_status, opt_text, UNAUTHORIZED};
use crate::monzo::{CallReply, MonzoApi, RetryPhase, WithdrawError, WithdrawFlow, WithdrawStep, withdraw_request_view};
use crate::pots::PotMap;
use crate::text::{decimal, text_eq};

verus! {

/// Whether bytes are a well-formed JSON document, as `serde_json` reads them.
pub uninterp spec fn is_json_text(body: Seq<u8>) -> bool;

/// `serde_json::from_slice` into a JSON value: whether it succeeds, which
/// depends on the bytes alone.
#[verifier::external_body]
fn parses_as_json(body: &[u8]) -> (r: bool)
    ensures
        r == is_json_text(body@),
{
    serde_json::from_slice::<serde_json::Value>(body).is_ok()
}

/// The part of a transaction that the webhook handler acts on.
pub struct TransactionFacts {
    pub id: String,
    pub account_id: String,
    /// In minor units; negative for money spent.
    pub amount: i64,
    pub category: String,
    pub scheme: String,
    pub eligible_for_pot_cover: Option<String>,
}

/// A webhook event, as far as the handler reads it.
pub struct WebhookEvent {
    pub event_type: String,
    pub data: TransactionFacts,
}

/// What the webhook handler does next.
pub enum WebhookAction {
    /// Answer with this status.
    Respond(u16),
    /// Decode the body into a webhook event and report it.
    DecodePayload,
    /// Cover the spend from the pot of `category`: withdraw `amount`
    /// (positive, in minor units) with `dedupe_id` as idempotency key.
    Cover { category: String, amount: u64, dedupe_id: String },
}

/// The plain view of a handler action.
pub enum ActionView {
    Respond(u16),
    DecodePayload,
    Cover { category: Seq<char>, amount: int, dedupe_id: Seq<char> },
}

impl View for WebhookAction {
    type V = ActionView;

    open spec fn view(&self) -> ActionView {
        match self {
            WebhookAction::Respond(s) => ActionView::Respond(*s),
            WebhookAction::DecodePayload => ActionView::DecodePayload,
            WebhookAction::Cover { category, amount, dedupe_id } => ActionView::Cover {
                category: category@,
                amount: *amount as int,
                dedupe_id: dedupe_id@,
            },
        }
    }
}

/// The statuses the handler answers with.
pub const OK: u16 = 200;
pub const BAD_REQUEST: u16 = 400;
pub const FORBIDDEN: u16 = 403;
pub const INTERNAL_SERVER_ERROR: u16 = 500;

/// A transaction that pot cover applies to: Monzo marks it eligible, it
/// went over the Mastercard scheme, and money left the account.
pub open spec fn qualifies_for_cover(d: TransactionFacts) -> bool {
    &&& opt_text(d.eligible_for_pot_cover) == Some("true"@)
    &&& d.scheme@ == "mastercard"@
    &&& d.amount < 0
}

/// What the handler does with a decoded event that arrived under the path
/// secret `secret`.
pub open spec fn webhook_decision(config: Config, secret: Seq<char>, e: WebhookEvent) -> ActionView {
    if secret != config.app.secret@ {
        ActionView::Respond(403)
    } else if e.event_type@ != "transaction.created"@ {
        ActionView::Respond(200)
    } else if e.data.account_id@ != config.monzo.account_id@ {
        ActionView::Respond(403)
    } else if qualifies_for_cover(e.data) {
        ActionView::Cover { category: e.data.category@, amount: -e.data.amount, dedupe_id: e.data.id@ }
    } else {
        ActionView::Respond(200)
    }
}

/// What follows the JSON check: a body that parsed is to be decoded, any
/// other is answered with 400.
pub fn action_after_parse(parsed: bool) -> (a: WebhookAction)
    ensures
        parsed ==> a@ == ActionView::DecodePayload,
        !parsed ==> a@ == ActionView::Respond(400),
{
    if parsed {
        WebhookAction::DecodePayload
    } else {
        WebhookAction::Respond(BAD_REQUEST)
    }
}

/// First step of the handler: a body that is not JSON is answered with 400;
/// otherwise it is to be decoded.
pub fn begin_webhook(body: &[u8]) -> (a: WebhookAction)
    ensures
        is_json_text(body@) ==> a@ == ActionView::DecodePayload,
        !is_json_text(body@) ==> a@ == ActionView::Respond(400),
{
    action_after_parse(parses_as_json(body))
}

/// The decision on a decoded body: a body that lacks required fields is answered with 400; a
/// wrong path secret with 403; an event other than a created transaction
/// with 200; a transaction of another account with 403; a transaction that
/// qualifies for pot cover is to be covered; any other with 200.
pub fn decide_webhook(config: &Config, secret: &str, payload: Option<WebhookEvent>) -> (a: WebhookAction)
    ensures
        payload is None ==> a@ == ActionView::Respond(400),
        payload matches Some(e) ==> a@ == webhook_decision(*config, secret@, e),
{
    match payload {
        None => WebhookAction::Respond(BAD_REQUEST),
        Some(e) => {
            if !text_eq(secret, config.app.secret.as_str()) {
                return WebhookAction::Respond(FORBIDDEN);
            }
            if !text_eq(e.event_type.as_str(), "transaction.created") {
                return WebhookAction::Respond(OK);
            }
            if !text_eq(e.data.account_id.as_str(), config.monzo.account_id.as_str()) {
                return WebhookAction::Respond(FORBIDDEN);
            }
            let eligible = match &e.data.eligible_for_pot_cover {
                Some(flag) => text_eq(flag.as_str(), "true"),
                None => false,
            };
            if eligible && text_eq(e.data.scheme.as_str(), "mastercard") && e.data.amount < 0 {
                let spent = (0 - (e.data.amount as i128)) as u64;
                WebhookAction::Cover { category: e.data.category, amount: spent, dedupe_id: e.data.id }
            } else {
                WebhookAction::Respond(OK)
            }
        },
    }
}

/// The answer once the cover has been tried: a withdrawal that moved money,
/// or found no pot for the category, is answered with 200; a failed one
/// with 500.
pub fn cover_status(outcome: &Result<bool, WithdrawError>) -> (status: u16)
    ensures
        outcome is Ok ==> status == 200,
        outcome is Err ==> status == 500,
{
    match outcome {
        Ok(_) => OK,
        Err(_) => INTERNAL_SERVER_ERROR,
    }
}

/// What the webhook handler asks of the server next.
pub enum HandlerStep {
    /// Answer the webhook with this status; the handling is over.
    Respond(u16),
    /// Decode the body into a webhook event and report it.
    DecodePayload,
    /// Send this withdrawal request and report its reply.
    Send(ApiRequest),
    /// Refresh the tokens and report the new access token.
    RefreshTokens,
}

/// Where the handling of one webhook stands.
#[derive(PartialEq, Eq, Structural, Clone, Copy)]
pub enum HandlerStage {
    AwaitingPayload,
    Withdrawing,
    Done,
}

/// The handling of one webhook delivery.
pub struct WebhookHandler {
    pub stage: HandlerStage,
    /// The withdrawal under way, while the stage is `Withdrawing`.
    pub flow: Option<WithdrawFlow>,
}

/// The handler is ready for a withdrawal reply.
pub open spec fn awaits_withdraw_reply(h: WebhookHandler) -> bool {
    &&& h.stage == HandlerStage::Withdrawing
    &&& h.flow matches Some(f) && f.retry.phase == RetryPhase::AwaitingReply
}

/// The handler is ready for the outcome of a token refresh.
pub open spec fn awaits_refresh(h: WebhookHandler) -> bool {
    &&& h.stage == HandlerStage::Withdrawing
    &&& h.flow matches Some(f) && f.retry.phase == RetryPhase::AwaitingRefresh
}

impl WebhookHandler {
    /// Takes the body of a delivery: one that is not JSON is answered with
    /// 400, any other is to be decoded.
    pub fn start(body: &[u8]) -> (r: (WebhookHandler, HandlerStep))
        ensures
            is_json_text(body@) ==> r.1 is DecodePayload && r.0.stage == HandlerStage::AwaitingPayload,
            !is_json_text(body@) ==> (r.1 matches HandlerStep::Respond(400) && r.0.stage == HandlerStage::Done),
            r.0.flow is None,
    {
        WebhookHandler::start_parsed(parses_as_json(body))
    }

    /// Starts the handling once it is known whether the body is JSON: one
    /// that is not is answered with 400, any other is to be decoded.
    pub fn start_parsed(parsed: bool) -> (r: (WebhookHandler, HandlerStep))
        ensures
            parsed ==> r.1 is DecodePayload && r.0.stage == HandlerStage::AwaitingPayload,
            !parsed ==> (r.1 matches HandlerStep::Respond(400) && r.0.stage == HandlerStage::Done),
            r.0.flow is None,
    {
        match action_after_parse(parsed) {
            WebhookAction::DecodePayload => (
                WebhookHandler { stage: HandlerStage::AwaitingPayload, flow: None },
                HandlerStep::DecodePayload,
            ),
            _ => (WebhookHandler { stage: HandlerStage::Done, flow: None }, HandlerStep::Respond(BAD_REQUEST)),
        }
    }

    /// Takes the decoded event (none when the body lacks required fields),
    /// the path secret, the current pot map and access token. A refused or
    /// ignored event is answered at once, as `webhook_decision` says; so is
    /// one whose category no pot covers (with 200). Otherwise the withdrawal
    /// of the spent amount from the category's pot is sent.
    pub fn on_payload(
        &mut self,
        api: &MonzoApi,
        pots: &PotMap,
        secret: &str,
        payload: Option<WebhookEvent>,
        token: &str,
    ) -> (step: HandlerStep)
        requires
            old(self).stage == HandlerStage::AwaitingPayload,
        ensures
            payload is None ==> (step matches HandlerStep::Respond(400) && final(self).stage == HandlerStage::Done),
            payload matches Some(e) ==> match webhook_decision(api.config, secret@, e) {
                ActionView::Cover { category, amount, dedupe_id } => if pots@.contains_key(category) {
                    &&& step matches HandlerStep::Send(req) && req@ == withdraw_request_view(
                        *api,
                        pots@[category],
                        amount as u64,
                        dedupe_id,
                        token@,
                    )
                    &&& awaits_withdraw_reply(*final(self))
                    &&& !final(self).flow->0.retry.refreshed
                } else {
                    step matches HandlerStep::Respond(200) && final(self).stage == HandlerStage::Done
                },
                ActionView::Respond(s) => step matches HandlerStep::Respond(code) && code == s
                    && final(self).stage == HandlerStage::Done,
                ActionView::DecodePayload => false,
            },
    {
        match decide_webhook(&api.config, secret, payload) {
            WebhookAction::Cover { category, amount, dedupe_id } => {
                let (flow, first) = WithdrawFlow::start(api, pots, category.as_str(), amount, dedupe_id.as_str(), token);
                match first {
                    WithdrawStep::Send(req) => {
                        self.stage = HandlerStage::Withdrawing;
                        self.flow = flow;
                        HandlerStep::Send(req)
                    },
                    _ => {
                        self.stage = HandlerStage::Done;
                        HandlerStep::Respond(OK)
                    },
                }
            },
            WebhookAction::Respond(s) => {
                self.stage = HandlerStage::Done;
                HandlerStep::Respond(s)
            },
            WebhookAction::DecodePayload => unreached(),
        }
    }

    /// Takes the reply to the withdrawal. A first 401 has the tokens
    /// refreshed; a success is answered with 200; a 401 after a refresh,
    /// another client or server error, or no reply, with 500.
    pub fn on_withdraw_reply(&mut self, reply: CallReply) -> (step: HandlerStep)
        requires
            awaits_withdraw_reply(*old(self)),
        ensures
            match reply {
                CallReply::Transport(_) => step matches HandlerStep::Respond(500),
                CallReply::Status(s) => if s == UNAUTHORIZED && !old(self).flow->0.retry.refreshed {
                    step is RefreshTokens && awaits_refresh(*final(self))
                } else if s == UNAUTHORIZED || is_error_status(s) {
                    step matches HandlerStep::Respond(500)
                } else {
                    step matches HandlerStep::Respond(200)
                },
            },
            step is Respond ==> final(self).stage == HandlerStage::Done,
            final(self).flow is Some ==> final(self).flow->0.pot_id == old(self).flow->0.pot_id
                && final(self).flow->0.amount == old(self).flow->0.amount
                && final(self).flow->0.dedupe_id == old(self).flow->0.dedupe_id,
    {
        let mut flow = self.flow.take().unwrap();
        match flow.on_reply(reply) {
            WithdrawStep::RefreshTokens => {
                self.flow = Some(flow);
                HandlerStep::RefreshTokens
            },
            WithdrawStep::Finish(outcome) => {
                self.stage = HandlerStage::Done;
                HandlerStep::Respond(cover_status(&outcome))
            },
            WithdrawStep::Send(_) => unreached(),
        }
    }

    /// Takes the outcome of the token refresh: the withdrawal is sent again
    /// with the new access token, or the delivery is answered with 500.
    pub fn on_refresh(&mut self, api: &MonzoApi, refreshed: Result<String, String>) -> (step: HandlerStep)
        requires
            awaits_refresh(*old(self)),
        ensures
            match refreshed {
                Ok(token) => {
                    &&& step matches HandlerStep::Send(req) && req@ == withdraw_request_view(
                        *api,
                        old(self).flow->0.pot_id@,
                        old(self).flow->0.amount,
                        old(self).flow->0.dedupe_id@,
                        token@,
                    )
                    &&& awaits_withdraw_reply(*final(self))
                    &&& final(self).flow->0.retry.refreshed
                },
                Err(_) => step matches HandlerStep::Respond(500) && final(self).stage == HandlerStage::Done,
            },
    {
        let mut flow = self.flow.take().unwrap();
        match flow.on_refresh(api, refreshed) {
            WithdrawStep::Send(req) => {
                self.flow = Some(flow);
                HandlerStep::Send(req)
            },
            WithdrawStep::Finish(outcome) => {
                self.stage = HandlerStage::Done;
                HandlerStep::Respond(cover_status(&outcome))
            },
            WithdrawStep::RefreshTokens => unreached(),
        }
    }
}

/// A string field that is absent when empty (`settled` is sent as "" for
/// a transaction that has not settled).
pub fn none_if_empty(s: String) -> (r: Option<String>)
    ensures
        s@.len() == 0 ==> r is None,
        s@.len() > 0 ==> r == Some(s),
{
    if s.as_str().is_empty() {
        None
    } else {
        Some(s)
    }
}

/// The type of a JSON value that the payload types do not name.
#[derive(PartialEq, Eq, Structural, Clone, Copy)]
pub enum JsonKind {
    Null,
    Bool,
    Number,
    Text,
    Array,
    Object,
}

/// The name a JSON type is reported under.
pub open spec fn kind_text(k: JsonKind) -> Seq<char> {
    match k {
        JsonKind::Null => "null"@,
        JsonKind::Bool => "bool"@,
        JsonKind::Number => "number"@,
        JsonKind::Text => "string"@,
        JsonKind::Array => "array"@,
        JsonKind::Object => "object"@,
    }
}

/// The warning about a field that the payload types do not name:
/// "Unknown field in <context>: <key> (<type>) = <value>".
pub fn unknown_field_warning(context: &str, key: &str, kind: JsonKind, value: &str) -> (w: String)
    ensures
        w@ == "Unknown field in "@ + context@ + ": "@ + key@ + " ("@ + kind_text(kind) + ") = "@ + value@,
{
    let name = match kind {
        JsonKind::Null => "null",
        JsonKind::Bool => "bool",
        JsonKind::Number => "number",
        JsonKind::Text => "string",
        JsonKind::Array => "array",
        JsonKind::Object => "object",
    };
    let mut w = String::from_str("Unknown field in ");
    w.append(context);
    w.append(": ");
    w.append(key);
    w.append(" (");
    w.append(name);
    w.append(") = ");
    w.append(value);
    w
}

/// Law: the handler decides to move money only for a created transaction of
/// the configured account, under the right path secret, that qualifies for
/// pot cover; the amount it moves is what was spent, and is positive.
pub proof fn lemma_cover_only_when_all_checks_pass(config: Config, secret: Seq<char>, e: WebhookEvent)
    ensures
        webhook_decision(config, secret, e) is Cover ==> {
            &&& secret == config.app.secret@
            &&& e.event_type@ == "transaction.created"@
            &&& e.data.account_id@ == config.monzo.account_id@
            &&& qualifies_for_cover(e.data)
            &&& webhook_decision(config, secret, e)->amount == -e.data.amount
            &&& webhook_decision(config, secret, e)->amount > 0
        },
{
}

/// Law: an event under a wrong path secret is refused with 403, whatever
/// it holds.
pub proof fn lemma_wrong_secret_forbidden(config: Config, secret: Seq<char>, e: WebhookEvent)
    requires
        secret != config.app.secret@,
    ensures
        webhook_decision(config, secret, e) == ActionView::Respond(403),
{
}

/// Law: the withdrawal that covers a spend moves exactly the amount spent,
/// from the pot that the map gives for the transaction's category, into the
/// configured account, keyed by the transaction's id.
pub proof fn lemma_cover_moves_spent_amount(
    api: MonzoApi,
    pots: Map<Seq<char>, Seq<char>>,
    secret: Seq<char>,
    e: WebhookEvent,
    token: Seq<char>,
)
    requires
        webhook_decision(api.config, secret, e) is Cover,
        pots.contains_key(e.data.category@),
    ensures
        ({
            let d = webhook_decision(api.config, secret, e);
            let r = withdraw_request_view(api, pots[d->category], d->amount as u64, d->dedupe_id, token);
            &&& r.url == api.base_url@ + "/pots/"@ + pots[e.data.category@] + "/withdraw"@
            &&& r.form[0] == ("destination_account_id"@, api.config.monzo.account_id@)
            &&& r.form[1] == ("amount"@, decimal((-e.data.amount) as nat))
            &&& r.form[2] == ("dedupe_id"@, e.data.id@)
        }),
{
}

/// Law: under the right path secret, a created transaction of an account
/// other than the configured one is refused with 403, whatever its amount,
/// scheme, category and eligibility.
pub proof fn lemma_other_account_forbidden(config: Config, secret: Seq<char>, e: WebhookEvent)
    requires
        secret == config.app.secret@,
        e.event_type@ == "transaction.created"@,
        e.data.account_id@ != config.monzo.account_id@,
    ensures
        webhook_decision(config, secret, e) == ActionView::Respond(403),
{
}

} // verus!
