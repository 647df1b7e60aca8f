use vstd::prelude::*;

use crate::config::{Config, Tokens};
use crate::http::{ApiRequest, Method, RequestView, error_status, is_error_status, pair, UNAUTHORIZED};
use crate::pots::{Pot, PotMap, build_pot_map, pot_map_of};
use crate::text::{decimal, decimal_string};

verus! {

/// Where the Monzo API lives unless told otherwise.
pub open spec fn default_base_url() -> Seq<char> {
    "https://api.monzo.com"@
}

/// The pot listing request.
pub open spec fn pots_request_view(api: MonzoApi, token: Seq<char>) -> RequestView {
    RequestView {
        body: None,
        method: Method::Get,
        url: api.base_url@ + "/pots"@,
        bearer: Some(token),
        query: seq![("current_account_id"@, api.config.monzo.account_id@)],
        form: Seq::empty(),
    }
}

/// The pot withdrawal request.
pub open spec fn withdraw_request_view(
    api: MonzoApi,
    pot_id: Seq<char>,
    amount: u64,
    dedupe_id: Seq<char>,
    token: Seq<char>,
) -> RequestView {
    RequestView {
        body: None,
        method: Method::Put,
        url: api.base_url@ + "/pots/"@ + pot_id + "/withdraw"@,
        bearer: Some(token),
        query: Seq::empty(),
        form: seq![
            ("destination_account_id"@, api.config.monzo.account_id@),
            ("amount"@, decimal(amount as nat)),
            ("dedupe_id"@, dedupe_id),
        ],
    }
}

/// The plain values that the API client works from: the base URL of the
/// API and the configuration.
pub struct MonzoApi {
    pub base_url: String,
    pub config: Config,
}

impl MonzoApi {
    /// A client of the real Monzo API.
    pub fn new(config: Config) -> (api: MonzoApi)
        ensures
            api.base_url@ == default_base_url(),
            api.config == config,
    {
        MonzoApi { base_url: String::from_str("https://api.monzo.com"), config }
    }

    /// The same client, pointed at another base URL.
    pub fn with_base_url(self, base_url: String) -> (api: MonzoApi)
        ensures
            api.base_url == base_url,
            api.config == self.config,
    {
        MonzoApi { base_url, config: self.config }
    }

    /// The URL of an API path.
    fn endpoint(&self, path: &str) -> (url: String)
        ensures
            url@ == self.base_url@ + path@,
    {
        let mut url = self.base_url.clone();
        url.append(path);
        url
    }

    /// Lists the pots of the configured account.
    pub fn pots_request(&self, token: &str) -> (r: ApiRequest)
        ensures
            r@ == pots_request_view(*self, token@),
    {
        let mut query = Vec::new();
        query.push(pair("current_account_id", self.config.monzo.account_id.clone()));
        let r = ApiRequest {
            body: None,
            method: Method::Get,
            url: self.endpoint("/pots"),
            bearer: Some(String::from_str(token)),
            query,
            form: Vec::new(),
        };
        proof {
            assert(r@.query =~= seq![("current_account_id"@, self.config.monzo.account_id@)]);
            assert(r@.form =~= Seq::empty());
        }
        r
    }

    /// Moves `amount` (in pence) from a pot into the configured account.
    pub fn withdraw_request(&self, pot_id: &str, amount: u64, dedupe_id: &str, token: &str) -> (r: ApiRequest)
        ensures
            r@ == withdraw_request_view(*self, pot_id@, amount, dedupe_id@, token@),
    {
        let mut url = self.endpoint("/pots/");
        url.append(pot_id);
        url.append("/withdraw");
        let mut form = Vec::new();
        form.push(pair("destination_account_id", self.config.monzo.account_id.clone()));
        form.push(pair("amount", decimal_string(amount as u128)));
        form.push(pair("dedupe_id", String::from_str(dedupe_id)));
        let r = ApiRequest {
            body: None,
            method: Method::Put,
            url,
            bearer: Some(String::from_str(token)),
            query: Vec::new(),
            form,
        };
        proof {
            assert(r@.query =~= Seq::empty());
            assert(r@.form =~= seq![
                ("destination_account_id"@, self.config.monzo.account_id@),
                ("amount"@, decimal(amount as nat)),
                ("dedupe_id"@, dedupe_id@),
            ]);
        }
        r
    }

    /// Trades the refresh token for a new token pair.
    pub fn refresh_request(&self, refresh_token: &str) -> (r: ApiRequest)
        ensures
            r@ == (RequestView {
                body: None,
                method: Method::Post,
                url: self.base_url@ + "/oauth2/token"@,
                bearer: None,
                query: Seq::empty(),
                form: seq![
                    ("grant_type"@, "refresh_token"@),
                    ("client_id"@, self.config.monzo.client_id@),
                    ("client_secret"@, self.config.monzo.client_secret@),
                    ("refresh_token"@, refresh_token@),
                ],
            }),
    {
        let mut form = Vec::new();
        form.push(pair("grant_type", String::from_str("refresh_token")));
        form.push(pair("client_id", self.config.monzo.client_id.clone()));
        form.push(pair("client_secret", self.config.monzo.client_secret.clone()));
        form.push(pair("refresh_token", String::from_str(refresh_token)));
        let r = ApiRequest {
            body: None,
            method: Method::Post,
            url: self.endpoint("/oauth2/token"),
            bearer: None,
            query: Vec::new(),
            form,
        };
        proof {
            assert(r@.query =~= Seq::empty());
            assert(r@.form =~= seq![
                ("grant_type"@, "refresh_token"@),
                ("client_id"@, self.config.monzo.client_id@),
                ("client_secret"@, self.config.monzo.client_secret@),
                ("refresh_token"@, refresh_token@),
            ]);
        }
        r
    }

    /// Trades the one-time code of the OAuth callback for a token pair.
    pub fn exchange_request(&self, code: &str) -> (r: ApiRequest)
        ensures
            r@ == (RequestView {
                body: None,
                method: Method::Post,
                url: self.base_url@ + "/oauth2/token"@,
                bearer: None,
                query: Seq::empty(),
                form: seq![
                    ("grant_type"@, "authorization_code"@),
                    ("client_id"@, self.config.monzo.client_id@),
                    ("client_secret"@, self.config.monzo.client_secret@),
                    ("redirect_uri"@, self.config.app.redirect_uri@),
                    ("code"@, code@),
                ],
            }),
    {
        let mut form = Vec::new();
        form.push(pair("grant_type", String::from_str("authorization_code")));
        form.push(pair("client_id", self.config.monzo.client_id.clone()));
        form.push(pair("client_secret", self.config.monzo.client_secret.clone()));
        form.push(pair("redirect_uri", self.config.app.redirect_uri.clone()));
        form.push(pair("code", String::from_str(code)));
        let r = ApiRequest {
            body: None,
            method: Method::Post,
            url: self.endpoint("/oauth2/token"),
            bearer: None,
            query: Vec::new(),
            form,
        };
        proof {
            assert(r@.query =~= Seq::empty());
            assert(r@.form =~= seq![
                ("grant_type"@, "authorization_code"@),
                ("client_id"@, self.config.monzo.client_id@),
                ("client_secret"@, self.config.monzo.client_secret@),
                ("redirect_uri"@, self.config.app.redirect_uri@),
                ("code"@, code@),
            ]);
        }
        r
    }
}

/// How a token pair was asked for.
#[derive(PartialEq, Eq, Structural, Clone, Copy)]
pub enum Grant {
    /// With the refresh token, when the access token has expired.
    Refresh,
    /// With the code of the OAuth callback.
    Exchange,
}

/// A token response that lacks a token.
#[derive(PartialEq, Eq, Structural, Clone, Copy)]
pub enum GrantError {
    MissingAccessToken(Grant),
    MissingRefreshToken(Grant),
}

/// What a grant error says.
pub open spec fn grant_error_text(e: GrantError) -> Seq<char> {
    match e {
        GrantError::MissingAccessToken(Grant::Refresh) =>
            "Missing access_token in refresh response — re-auth needed at /auth/reauth"@,
        GrantError::MissingRefreshToken(Grant::Refresh) => "Missing refresh_token in refresh response"@,
        GrantError::MissingAccessToken(Grant::Exchange) => "Missing access_token in exchange response"@,
        GrantError::MissingRefreshToken(Grant::Exchange) => "Missing refresh_token in exchange response"@,
    }
}

impl GrantError {
    /// The error's message.
    pub fn message(&self) -> (m: String)
        ensures
            m@ == grant_error_text(*self),
    {
        match self {
            GrantError::MissingAccessToken(Grant::Refresh) => String::from_str(
                "Missing access_token in refresh response — re-auth needed at /auth/reauth",
            ),
            GrantError::MissingRefreshToken(Grant::Refresh) => String::from_str(
                "Missing refresh_token in refresh response",
            ),
            GrantError::MissingAccessToken(Grant::Exchange) => String::from_str(
                "Missing access_token in exchange response",
            ),
            GrantError::MissingRefreshToken(Grant::Exchange) => String::from_str(
                "Missing refresh_token in exchange response",
            ),
        }
    }
}

/// The token pair of a token response, given the string values that the
/// response holds under "access_token" and "refresh_token" (none where the
/// member is missing or not a string).
pub fn tokens_from_grant(grant: Grant, access_token: Option<String>, refresh_token: Option<String>) -> (r:
    Result<Tokens, GrantError>)
    ensures
        access_token is None ==> r == Err::<Tokens, GrantError>(GrantError::MissingAccessToken(grant)),
        access_token is Some && refresh_token is None ==> r == Err::<Tokens, GrantError>(
            GrantError::MissingRefreshToken(grant),
        ),
        access_token is Some && refresh_token is Some ==> (r matches Ok(t) && t.access_token
            == access_token->0 && t.refresh_token == refresh_token->0),
{
    match access_token {
        None => Err(GrantError::MissingAccessToken(grant)),
        Some(access) => match refresh_token {
            None => Err(GrantError::MissingRefreshToken(grant)),
            Some(refresh) => Ok(Tokens { access_token: access, refresh_token: refresh }),
        },
    }
}

/// Where a call that may need a fresh access token stands.
#[derive(PartialEq, Eq, Structural, Clone, Copy)]
pub enum RetryPhase {
    /// A request is out; its reply is awaited.
    AwaitingReply,
    /// The access token is being refreshed.
    AwaitingRefresh,
    /// The call is over.
    Finished,
}

/// The rule for an expired access token: the first reply of 401 has the
/// tokens refreshed and the request sent once more with the new token; any
/// other reply, or a 401 to the second request, ends the call.
#[derive(PartialEq, Eq, Structural, Clone, Copy)]
pub struct TokenRetry {
    pub phase: RetryPhase,
    /// Whether the tokens have been refreshed in this call.
    pub refreshed: bool,
}

/// The retry state after the reply to the request that was out: a first
/// 401 asks for a refresh, anything else ends the call.
pub open spec fn after_reply(s: TokenRetry, unauthorized: bool) -> TokenRetry {
    if unauthorized && !s.refreshed {
        TokenRetry { phase: RetryPhase::AwaitingRefresh, refreshed: s.refreshed }
    } else {
        TokenRetry { phase: RetryPhase::Finished, refreshed: s.refreshed }
    }
}

/// The retry state after a refresh: the request goes out again when the
/// refresh succeeded, and the call ends otherwise.
pub open spec fn after_refresh(s: TokenRetry, succeeded: bool) -> TokenRetry {
    TokenRetry {
        phase: if succeeded {
            RetryPhase::AwaitingReply
        } else {
            RetryPhase::Finished
        },
        refreshed: true,
    }
}

impl TokenRetry {
    /// A call whose first request has just been sent.
    pub fn new() -> (r: TokenRetry)
        ensures
            r.phase == RetryPhase::AwaitingReply,
            !r.refreshed,
    {
        TokenRetry { phase: RetryPhase::AwaitingReply, refreshed: false }
    }

    /// Takes the reply to the request that is out; answers whether the
    /// tokens are to be refreshed (and the request sent again).
    pub fn on_reply(&mut self, unauthorized: bool) -> (refresh: bool)
        requires
            old(self).phase == RetryPhase::AwaitingReply,
        ensures
            *final(self) == after_reply(*old(self), unauthorized),
            refresh == (final(self).phase == RetryPhase::AwaitingRefresh),
    {
        if unauthorized && !self.refreshed {
            self.phase = RetryPhase::AwaitingRefresh;
            true
        } else {
            self.phase = RetryPhase::Finished;
            false
        }
    }

    /// Takes the outcome of the refresh; answers whether the request is to
    /// be sent again.
    pub fn on_refresh(&mut self, succeeded: bool) -> (resend: bool)
        requires
            old(self).phase == RetryPhase::AwaitingRefresh,
        ensures
            *final(self) == after_refresh(*old(self), succeeded),
            resend == succeeded,
    {
        self.refreshed = true;
        if succeeded {
            self.phase = RetryPhase::AwaitingReply;
        } else {
            self.phase = RetryPhase::Finished;
        }
        succeeded
    }
}

/// Runs the retry rule on a sequence of events: whether each reply was 401,
/// and whether each refresh succeeded, consumed in the order the rule asks
/// for them. The result counts the requests sent (starting from `sent`) and
/// the refreshes asked for (starting from `refreshes`).
pub open spec fn retry_run(
    replies: Seq<bool>,
    refreshes_ok: Seq<bool>,
    state: TokenRetry,
    sent: nat,
    refreshes: nat,
) -> (nat, nat)
    decreases replies.len() + refreshes_ok.len(),
{
    match state.phase {
        RetryPhase::AwaitingReply => if replies.len() == 0 {
            (sent, refreshes)
        } else {
            retry_run(replies.drop_first(), refreshes_ok, after_reply(state, replies[0]), sent, refreshes)
        },
        RetryPhase::AwaitingRefresh => if refreshes_ok.len() == 0 {
            (sent, refreshes)
        } else {
            let next = after_refresh(state, refreshes_ok[0]);
            retry_run(
                replies,
                refreshes_ok.drop_first(),
                next,
                if next.phase == RetryPhase::AwaitingReply { sent + 1 } else { sent },
                refreshes + 1,
            )
        },
        RetryPhase::Finished => (sent, refreshes),
    }
}

/// Law: whatever the replies and refresh outcomes, a call under the retry
/// rule sends at most two requests and refreshes the tokens at most once.
pub proof fn lemma_retry_bounded(replies: Seq<bool>, refreshes_ok: Seq<bool>)
    ensures
        retry_run(replies, refreshes_ok, TokenRetry::initial(), 1, 0).0 <= 2,
        retry_run(replies, refreshes_ok, TokenRetry::initial(), 1, 0).1 <= 1,
{
    let s0 = TokenRetry::initial();
    if replies.len() == 0 {
        assert(retry_run(replies, refreshes_ok, s0, 1, 0) == (1nat, 0nat));
    } else {
        let r1 = replies.drop_first();
        let s1 = after_reply(s0, replies[0]);
        assert(retry_run(replies, refreshes_ok, s0, 1, 0) == retry_run(r1, refreshes_ok, s1, 1, 0));
        if s1.phase == RetryPhase::Finished {
            assert(retry_run(r1, refreshes_ok, s1, 1, 0) == (1nat, 0nat));
        } else if refreshes_ok.len() == 0 {
            assert(retry_run(r1, refreshes_ok, s1, 1, 0) == (1nat, 0nat));
        } else {
            let f1 = refreshes_ok.drop_first();
            let s2 = after_refresh(s1, refreshes_ok[0]);
            let sent2: nat = if s2.phase == RetryPhase::AwaitingReply { 2 } else { 1 };
            assert(retry_run(r1, refreshes_ok, s1, 1, 0) == retry_run(r1, f1, s2, sent2, 1));
            if s2.phase == RetryPhase::Finished {
                assert(retry_run(r1, f1, s2, sent2, 1) == (sent2, 1nat));
            } else if r1.len() == 0 {
                assert(retry_run(r1, f1, s2, sent2, 1) == (sent2, 1nat));
            } else {
                let s3 = after_reply(s2, r1[0]);
                assert(s3.phase == RetryPhase::Finished);
                assert(retry_run(r1, f1, s2, sent2, 1) == retry_run(r1.drop_first(), f1, s3, sent2, 1));
                assert(retry_run(r1.drop_first(), f1, s3, sent2, 1) == (sent2, 1nat));
            }
        }
    }
}

impl TokenRetry {
    /// The state right after the first request went out.
    pub open spec fn initial() -> TokenRetry {
        TokenRetry { phase: RetryPhase::AwaitingReply, refreshed: false }
    }
}

/// The reply to a request: a status, or a failure to get one.
pub enum CallReply {
    Status(u16),
    Transport(String),
}

/// Why a pot withdrawal failed.
pub enum WithdrawError {
    /// The request was refused as unauthorized, also with refreshed tokens.
    Unauthorized,
    /// The request was answered with another client or server error.
    Rejected(u16),
    /// No reply came; the message says why.
    Transport(String),
    /// The tokens could not be refreshed; the message says why.
    RefreshFailed(String),
}

/// What a withdrawal error says.
pub open spec fn withdraw_error_text(e: WithdrawError) -> Seq<char> {
    match e {
        WithdrawError::Unauthorized => "401 Unauthorized"@,
        WithdrawError::Rejected(_) => "Monzo pot withdrawal failed"@,
        WithdrawError::Transport(m) => m@,
        WithdrawError::RefreshFailed(m) => m@,
    }
}

impl WithdrawError {
    /// The error's message.
    pub fn message(&self) -> (m: String)
        ensures
            m@ == withdraw_error_text(*self),
    {
        match self {
            WithdrawError::Unauthorized => String::from_str("401 Unauthorized"),
            WithdrawError::Rejected(_) => String::from_str("Monzo pot withdrawal failed"),
            WithdrawError::Transport(m) => m.clone(),
            WithdrawError::RefreshFailed(m) => m.clone(),
        }
    }
}

/// What to do next in a pot withdrawal.
pub enum WithdrawStep {
    /// Send this request and report its reply.
    Send(ApiRequest),
    /// Refresh the tokens and report the new access token.
    RefreshTokens,
    /// The withdrawal is over: whether money was moved, or why not.
    Finish(Result<bool, WithdrawError>),
}

/// A withdrawal from the pot that covers a category, under way.
pub struct WithdrawFlow {
    pub pot_id: String,
    pub amount: u64,
    pub dedupe_id: String,
    pub retry: TokenRetry,
}

impl WithdrawFlow {
    /// Starts a withdrawal of `amount` for `category`: when no pot covers the
    /// category nothing is sent and the answer is that no money moved;
    /// otherwise the withdrawal from that pot is sent with `token`.
    pub fn start(api: &MonzoApi, pots: &PotMap, category: &str, amount: u64, dedupe_id: &str, token: &str) -> (r: (
        Option<WithdrawFlow>,
        WithdrawStep,
    ))
        ensures
            !pots@.contains_key(category@) ==> r.0 is None && r.1 matches WithdrawStep::Finish(Ok(false)),
            pots@.contains_key(category@) ==> (r.0 matches Some(f) && f.pot_id@ == pots@[category@] && f.amount
                == amount && f.dedupe_id@ == dedupe_id@ && f.retry.phase == RetryPhase::AwaitingReply
                && !f.retry.refreshed),
            pots@.contains_key(category@) ==> (r.1 matches WithdrawStep::Send(req) && req@ == withdraw_request_view(
                *api,
                pots@[category@],
                amount,
                dedupe_id@,
                token@,
            )),
    {
        match pots.lookup(category) {
            None => (None, WithdrawStep::Finish(Ok(false))),
            Some(pot_id) => {
                let req = api.withdraw_request(pot_id.as_str(), amount, dedupe_id, token);
                let flow = WithdrawFlow {
                    pot_id,
                    amount,
                    dedupe_id: String::from_str(dedupe_id),
                    retry: TokenRetry::new(),
                };
                (Some(flow), WithdrawStep::Send(req))
            },
        }
    }

    /// Takes the reply to the withdrawal request. A first 401 has the tokens
    /// refreshed; a 401 after that, another client or server error, or no
    /// reply at all ends it in failure; any other status means the money
    /// moved.
    pub fn on_reply(&mut self, reply: CallReply) -> (step: WithdrawStep)
        requires
            old(self).retry.phase == RetryPhase::AwaitingReply,
        ensures
            final(self).pot_id == old(self).pot_id,
            final(self).amount == old(self).amount,
            final(self).dedupe_id == old(self).dedupe_id,
            final(self).retry.refreshed == old(self).retry.refreshed,
            step is RefreshTokens <==> final(self).retry.phase == RetryPhase::AwaitingRefresh,
            step is Finish <==> final(self).retry.phase == RetryPhase::Finished,
            match reply {
                CallReply::Transport(m) => step matches WithdrawStep::Finish(Err(WithdrawError::Transport(e))) && e == m,
                CallReply::Status(s) => if s == UNAUTHORIZED && !old(self).retry.refreshed {
                    step is RefreshTokens
                } else if s == UNAUTHORIZED {
                    step matches WithdrawStep::Finish(Err(WithdrawError::Unauthorized))
                } else if is_error_status(s) {
                    step matches WithdrawStep::Finish(Err(WithdrawError::Rejected(code))) && code == s
                } else {
                    step matches WithdrawStep::Finish(Ok(true))
                },
            },
    {
        match reply {
            CallReply::Transport(m) => {
                self.retry.on_reply(false);
                WithdrawStep::Finish(Err(WithdrawError::Transport(m)))
            },
            CallReply::Status(s) => {
                let unauthorized = s == UNAUTHORIZED;
                if self.retry.on_reply(unauthorized) {
                    WithdrawStep::RefreshTokens
                } else if unauthorized {
                    WithdrawStep::Finish(Err(WithdrawError::Unauthorized))
                } else if error_status(s) {
                    WithdrawStep::Finish(Err(WithdrawError::Rejected(s)))
                } else {
                    WithdrawStep::Finish(Ok(true))
                }
            },
        }
    }

    /// Takes the outcome of the token refresh: the withdrawal is sent again
    /// with the new access token, or ends with the refresh's error.
    pub fn on_refresh(&mut self, api: &MonzoApi, refreshed: Result<String, String>) -> (step: WithdrawStep)
        requires
            old(self).retry.phase == RetryPhase::AwaitingRefresh,
        ensures
            final(self).pot_id == old(self).pot_id,
            final(self).amount == old(self).amount,
            final(self).dedupe_id == old(self).dedupe_id,
            final(self).retry.refreshed,
            match refreshed {
                Ok(token) => final(self).retry.phase == RetryPhase::AwaitingReply && (step matches WithdrawStep::Send(
                    req,
                ) && req@ == withdraw_request_view(
                    *api,
                    old(self).pot_id@,
                    old(self).amount,
                    old(self).dedupe_id@,
                    token@,
                )),
                Err(m) => final(self).retry.phase == RetryPhase::Finished && (step matches WithdrawStep::Finish(
                    Err(WithdrawError::RefreshFailed(e)),
                ) && e == m),
            },
    {
        match refreshed {
            Ok(token) => {
                self.retry.on_refresh(true);
                let req = api.withdraw_request(self.pot_id.as_str(), self.amount, self.dedupe_id.as_str(), token.as_str());
                WithdrawStep::Send(req)
            },
            Err(m) => {
                self.retry.on_refresh(false);
                WithdrawStep::Finish(Err(WithdrawError::RefreshFailed(m)))
            },
        }
    }
}

/// The reply to the pot listing: no reply, or a status with the pots that
/// the body lists (or why the body could not be read as a pot list).
pub enum PotsReply {
    Transport(String),
    Listed { status: u16, pots: Result<Vec<Pot>, String> },
}

/// What to do next in a refresh of the pot map.
pub enum PotRefreshStep {
    /// Send this request and report its reply.
    Send(ApiRequest),
    /// Refresh the tokens and report the new access token.
    RefreshTokens,
    /// The refresh is over: the new map, or why there is none.
    Finish(Result<PotMap, String>),
}

/// A refresh of the category-to-pot map, under way.
pub struct PotRefresh {
    pub retry: TokenRetry,
}

impl PotRefresh {
    /// Starts the refresh: the pots of the configured account are listed
    /// with `token`.
    pub fn start(api: &MonzoApi, token: &str) -> (r: (PotRefresh, PotRefreshStep))
        ensures
            r.0.retry.phase == RetryPhase::AwaitingReply,
            !r.0.retry.refreshed,
            r.1 matches PotRefreshStep::Send(req) && req@ == pots_request_view(*api, token@),
    {
        (PotRefresh { retry: TokenRetry::new() }, PotRefreshStep::Send(api.pots_request(token)))
    }

    /// Takes the reply to the listing. A first 401 has the tokens refreshed;
    /// otherwise a readable pot list becomes the new map, and anything else
    /// ends the refresh with its error.
    pub fn on_reply(&mut self, reply: PotsReply) -> (step: PotRefreshStep)
        requires
            old(self).retry.phase == RetryPhase::AwaitingReply,
        ensures
            final(self).retry.refreshed == old(self).retry.refreshed,
            step is RefreshTokens <==> final(self).retry.phase == RetryPhase::AwaitingRefresh,
            step is Finish <==> final(self).retry.phase == RetryPhase::Finished,
            match reply {
                PotsReply::Transport(m) => step matches PotRefreshStep::Finish(Err(e)) && e == m,
                PotsReply::Listed { status, pots } => if status == UNAUTHORIZED && !old(self).retry.refreshed {
                    step is RefreshTokens
                } else {
                    match pots {
                        Ok(list) => step matches PotRefreshStep::Finish(Ok(map)) && map@ == pot_map_of(list@),
                        Err(m) => step matches PotRefreshStep::Finish(Err(e)) && e == m,
                    }
                },
            },
    {
        match reply {
            PotsReply::Transport(m) => {
                self.retry.on_reply(false);
                PotRefreshStep::Finish(Err(m))
            },
            PotsReply::Listed { status, pots } => {
                if self.retry.on_reply(status == UNAUTHORIZED) {
                    PotRefreshStep::RefreshTokens
                } else {
                    match pots {
                        Ok(list) => PotRefreshStep::Finish(Ok(build_pot_map(&list))),
                        Err(m) => PotRefreshStep::Finish(Err(m)),
                    }
                }
            },
        }
    }

    /// Takes the outcome of the token refresh: the listing is sent again
    /// with the new access token, or the refresh ends with that error.
    pub fn on_refresh(&mut self, api: &MonzoApi, refreshed: Result<String, String>) -> (step: PotRefreshStep)
        requires
            old(self).retry.phase == RetryPhase::AwaitingRefresh,
        ensures
            final(self).retry.refreshed,
            match refreshed {
                Ok(token) => final(self).retry.phase == RetryPhase::AwaitingReply && (step matches PotRefreshStep::Send(
                    req,
                ) && req@ == pots_request_view(*api, token@)),
                Err(m) => final(self).retry.phase == RetryPhase::Finished && (step matches PotRefreshStep::Finish(
                    Err(e),
                ) && e == m),
            },
    {
        match refreshed {
            Ok(token) => {
                self.retry.on_refresh(true);
                PotRefreshStep::Send(api.pots_request(token.as_str()))
            },
            Err(m) => {
                self.retry.on_refresh(false);
                PotRefreshStep::Finish(Err(m))
            },
        }
    }
}

} // verus!
