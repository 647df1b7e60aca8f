use vstd::prelude::*;

use crate::cli::common::{api_request, base_url, path_with_id};
use crate::config::Config;
use crate::http::{ApiRequest, Method, RequestView, pair};
use crate::text::{decimal, decimal_string, decimal_value, lemma_decimal_value_of_decimal};

verus! {

/// `monzoctl pots`.
pub struct PotsArgs {
    pub command: PotsCommand,
}

/// The `pots` subcommands.
pub enum PotsCommand {
    /// List pots for the configured account.
    List,
    /// Move money from the account into a pot.
    Deposit {
        pot_id: String,
        /// In minor units.
        amount: u64,
        /// Idempotency key; generated when absent.
        dedupe_id: Option<String>,
        /// Defaults to the configured account.
        source_account_id: Option<String>,
    },
    /// Move money from a pot into the account.
    Withdraw {
        pot_id: String,
        amount: u64,
        dedupe_id: Option<String>,
        /// Defaults to the configured account.
        destination_account_id: Option<String>,
    },
}

#[verifier::external_type_specification]
#[verifier::external_body]
pub struct ExSystemTime(std::time::SystemTime);

/// `SystemTime::now`: the time of the call; nothing is known of it.
#[verifier::external_body]
fn clock_now() -> std::time::SystemTime {
    std::time::SystemTime::now()
}

/// `SystemTime::duration_since(UNIX_EPOCH)`: the time elapsed since the
/// Unix epoch, or none for a time before it; nothing is known of the value.
#[verifier::external_body]
fn since_unix_epoch(t: &std::time::SystemTime) -> Option<std::time::Duration> {
    t.duration_since(std::time::UNIX_EPOCH).ok()
}

/// `Duration::as_nanos`: the duration in nanoseconds; nothing is known of
/// the value.
#[verifier::external_body]
fn duration_nanos(d: &std::time::Duration) -> u128 {
    d.as_nanos()
}

/// The idempotency key made from a clock reading in nanoseconds.
pub open spec fn dedupe_id_text(nanos: nat) -> Seq<char> {
    "monzoctl-"@ + decimal(nanos)
}

/// The idempotency key for a clock reading.
pub fn dedupe_id_from_nanos(nanos: u128) -> (id: String)
    ensures
        id@ == dedupe_id_text(nanos as nat),
{
    let mut id = String::from_str("monzoctl-");
    id.append(decimal_string(nanos).as_str());
    id
}

/// The nanoseconds that a clock reading counts from the Unix epoch: the
/// reading itself, or 0 for a clock before the epoch (`None`).
pub open spec fn reading_nanos(since_epoch: Option<u128>) -> nat {
    match since_epoch {
        Some(n) => n as nat,
        None => 0,
    }
}

/// The idempotency key for a clock reading given as nanoseconds since the
/// Unix epoch, or `None` for a clock before the epoch ("monzoctl-0").
pub fn dedupe_id_for_reading(since_epoch: Option<u128>) -> (id: String)
    ensures
        id@ == dedupe_id_text(reading_nanos(since_epoch)),
{
    let nanos = match since_epoch {
        Some(n) => n,
        None => 0,
    };
    dedupe_id_from_nanos(nanos)
}

/// A fresh idempotency key: "monzoctl-" and the nanoseconds since the Unix
/// epoch (0 when the clock is before the epoch), from a reading of the
/// system clock.
pub fn generate_dedupe_id() -> (id: String)
    ensures
        exists|since_epoch: Option<u128>| id@ == #[trigger] dedupe_id_text(reading_nanos(since_epoch)),
{
    let reading = match since_unix_epoch(&clock_now()) {
        Some(d) => Some(duration_nanos(&d)),
        None => None,
    };
    let id = dedupe_id_for_reading(reading);
    proof {
        assert(id@ == dedupe_id_text(reading_nanos(reading)));
    }
    id
}

/// Law: keys from two clock readings after the epoch differ when the
/// readings do, and the digits after "monzoctl-" read back as the reading,
/// so a later reading gives a larger number.
pub proof fn lemma_later_reading_larger_key(n1: u128, n2: u128)
    requires
        n1 < n2,
    ensures
        dedupe_id_text(reading_nanos(Some(n1))) != dedupe_id_text(reading_nanos(Some(n2))),
        decimal_value(dedupe_id_text(reading_nanos(Some(n1))).skip(9)) == n1,
        decimal_value(dedupe_id_text(reading_nanos(Some(n2))).skip(9)) == n2,
        decimal_value(dedupe_id_text(reading_nanos(Some(n1))).skip(9))
            < decimal_value(dedupe_id_text(reading_nanos(Some(n2))).skip(9)),
{
    reveal_strlit("monzoctl-");
    let k1 = dedupe_id_text(n1 as nat);
    let k2 = dedupe_id_text(n2 as nat);
    assert(k1.skip(9) =~= decimal(n1 as nat));
    assert(k2.skip(9) =~= decimal(n2 as nat));
    lemma_decimal_value_of_decimal(n1 as nat);
    lemma_decimal_value_of_decimal(n2 as nat);
    if k1 == k2 {
        assert(k1.skip(9) == k2.skip(9));
    }
}

/// The text of an optional string, or a default.
pub open spec fn text_or(o: Option<String>, default: Seq<char>) -> Seq<char> {
    match o {
        Some(s) => s@,
        None => default,
    }
}

/// Lists the pots of the configured account.
pub fn list_request(config: &Config, token: &str) -> (r: ApiRequest)
    ensures
        r@ == (RequestView {
            body: None,
            method: Method::Get,
            url: base_url() + "/pots"@,
            bearer: Some(token@),
            query: seq![("current_account_id"@, config.monzo.account_id@)],
            form: Seq::empty(),
        }),
{
    let mut query = Vec::new();
    query.push(pair("current_account_id", config.monzo.account_id.clone()));
    let r = api_request(Method::Get, "/pots", token, query, Vec::new());
    proof {
        assert(r@.query =~= seq![("current_account_id"@, config.monzo.account_id@)]);
        assert(r@.form =~= Seq::empty());
    }
    r
}

/// A move of money between a pot and an account: `action` is "/deposit"
/// or "/withdraw", `account_field` names the account's form field.
fn transfer_request(
    token: &str,
    pot_id: &str,
    action: &str,
    account_field: &str,
    account_id: String,
    amount: u64,
    dedupe_id: String,
) -> (r: ApiRequest)
    ensures
        r@ == (RequestView {
            body: None,
            method: Method::Put,
            url: base_url() + "/pots/"@ + pot_id@ + action@,
            bearer: Some(token@),
            query: Seq::empty(),
            form: seq![(account_field@, account_id@), ("amount"@, decimal(amount as nat)), ("dedupe_id"@, dedupe_id@)],
        }),
{
    let path = path_with_id("/pots/", pot_id, action);
    let mut form = Vec::new();
    form.push(pair(account_field, account_id));
    form.push(pair("amount", decimal_string(amount as u128)));
    form.push(pair("dedupe_id", dedupe_id));
    let r = api_request(Method::Put, path.as_str(), token, Vec::new(), form);
    proof {
        assert(r@.url =~= base_url() + "/pots/"@ + pot_id@ + action@);
        assert(r@.query =~= Seq::empty());
        assert(r@.form =~= seq![(account_field@, account_id@), ("amount"@, decimal(amount as nat)), ("dedupe_id"@, dedupe_id@)]);
    }
    r
}

/// Moves money from an account (the configured one by default) into a pot.
pub fn deposit_request(
    config: &Config,
    token: &str,
    pot_id: &str,
    amount: u64,
    dedupe_id: String,
    source_account_id: Option<String>,
) -> (r: ApiRequest)
    ensures
        r@ == (RequestView {
            body: None,
            method: Method::Put,
            url: base_url() + "/pots/"@ + pot_id@ + "/deposit"@,
            bearer: Some(token@),
            query: Seq::empty(),
            form: seq![
                ("source_account_id"@, text_or(source_account_id, config.monzo.account_id@)),
                ("amount"@, decimal(amount as nat)),
                ("dedupe_id"@, dedupe_id@),
            ],
        }),
{
    let account = match source_account_id {
        Some(a) => a,
        None => config.monzo.account_id.clone(),
    };
    let r = transfer_request(token, pot_id, "/deposit", "source_account_id", account, amount, dedupe_id);
    r
}

/// Moves money from a pot into an account (the configured one by default).
pub fn withdraw_request(
    config: &Config,
    token: &str,
    pot_id: &str,
    amount: u64,
    dedupe_id: String,
    destination_account_id: Option<String>,
) -> (r: ApiRequest)
    ensures
        r@ == (RequestView {
            body: None,
            method: Method::Put,
            url: base_url() + "/pots/"@ + pot_id@ + "/withdraw"@,
            bearer: Some(token@),
            query: Seq::empty(),
            form: seq![
                ("destination_account_id"@, text_or(destination_account_id, config.monzo.account_id@)),
                ("amount"@, decimal(amount as nat)),
                ("dedupe_id"@, dedupe_id@),
            ],
        }),
{
    let account = match destination_account_id {
        Some(a) => a,
        None => config.monzo.account_id.clone(),
    };
    let r = transfer_request(token, pot_id, "/withdraw", "destination_account_id", account, amount, dedupe_id);
    r
}

/// The idempotency key that a subcommand uses: the one given, or a fresh
/// one made from a clock reading.
pub open spec fn chosen_key(given: Option<String>, key: Seq<char>) -> bool {
    match given {
        Some(d) => key == d@,
        None => exists|since_epoch: Option<u128>| key == #[trigger] dedupe_id_text(reading_nanos(since_epoch)),
    }
}

/// The request of a `pots` subcommand; a deposit or withdrawal without an
/// idempotency key gets a fresh one.
pub fn plan(command: PotsCommand, config: &Config, token: &str) -> (r: ApiRequest)
    ensures
        command is List ==> r@ == list_request_view(*config, token@),
        command matches PotsCommand::Deposit { pot_id, amount, dedupe_id, source_account_id } ==> exists|key: Seq<char>|
            r@ == #[trigger] deposit_request_view(*config, token@, pot_id@, amount, key, source_account_id)
                && chosen_key(dedupe_id, key),
        command matches PotsCommand::Withdraw { pot_id, amount, dedupe_id, destination_account_id } ==> exists|
            key: Seq<char>,
        | r@ == #[trigger] withdraw_request_view(*config, token@, pot_id@, amount, key, destination_account_id)
            && chosen_key(dedupe_id, key),
{
    match command {
        PotsCommand::List => list_request(config, token),
        PotsCommand::Deposit { pot_id, amount, dedupe_id, source_account_id } => {
            let ghost given = dedupe_id;
            let key = match dedupe_id {
                Some(d) => d,
                None => generate_dedupe_id(),
            };
            let ghost k = key@;
            let r = deposit_request(config, token, pot_id.as_str(), amount, key, source_account_id);
            proof {
                assert(chosen_key(given, k));
                assert(r@ == deposit_request_view(*config, token@, pot_id@, amount, k, source_account_id));
            }
            r
        },
        PotsCommand::Withdraw { pot_id, amount, dedupe_id, destination_account_id } => {
            let ghost given = dedupe_id;
            let key = match dedupe_id {
                Some(d) => d,
                None => generate_dedupe_id(),
            };
            let ghost k = key@;
            let r = withdraw_request(config, token, pot_id.as_str(), amount, key, destination_account_id);
            proof {
                assert(chosen_key(given, k));
                assert(r@ == withdraw_request_view(*config, token@, pot_id@, amount, k, destination_account_id));
            }
            r
        },
    }
}

/// The listing request.
pub open spec fn list_request_view(config: Config, token: Seq<char>) -> RequestView {
    RequestView {
        body: None,
        method: Method::Get,
        url: base_url() + "/pots"@,
        bearer: Some(token),
        query: seq![("current_account_id"@, config.monzo.account_id@)],
        form: Seq::empty(),
    }
}

/// The deposit request.
pub open spec fn deposit_request_view(
    config: Config,
    token: Seq<char>,
    pot_id: Seq<char>,
    amount: u64,
    dedupe_id: Seq<char>,
    source_account_id: Option<String>,
) -> RequestView {
    RequestView {
        body: None,
        method: Method::Put,
        url: base_url() + "/pots/"@ + pot_id + "/deposit"@,
        bearer: Some(token),
        query: Seq::empty(),
        form: seq![
            ("source_account_id"@, text_or(source_account_id, config.monzo.account_id@)),
            ("amount"@, decimal(amount as nat)),
            ("dedupe_id"@, dedupe_id),
        ],
    }
}

/// The withdrawal request.
pub open spec fn withdraw_request_view(
    config: Config,
    token: Seq<char>,
    pot_id: Seq<char>,
    amount: u64,
    dedupe_id: Seq<char>,
    destination_account_id: Option<String>,
) -> RequestView {
    RequestView {
        body: None,
        method: Method::Put,
        url: base_url() + "/pots/"@ + pot_id + "/withdraw"@,
        bearer: Some(token),
        query: Seq::empty(),
        form: seq![
            ("destination_account_id"@, text_or(destination_account_id, config.monzo.account_id@)),
            ("amount"@, decimal(amount as nat)),
            ("dedupe_id"@, dedupe_id),
        ],
    }
}

/// Law: a deposit takes the money from the account given, and from the
/// configured account only when none is given; it moves the amount asked
/// for under the key given.
pub proof fn lemma_deposit_uses_given_source(
    config: Config,
    token: Seq<char>,
    pot_id: Seq<char>,
    amount: u64,
    key: Seq<char>,
    source_account_id: Option<String>,
)
    ensures
        ({
            let f = deposit_request_view(config, token, pot_id, amount, key, source_account_id).form;
            &&& source_account_id matches Some(a) ==> f[0] == ("source_account_id"@, a@)
            &&& source_account_id is None ==> f[0] == ("source_account_id"@, config.monzo.account_id@)
            &&& f[1] == ("amount"@, decimal(amount as nat))
            &&& f[2] == ("dedupe_id"@, key)
        }),
{
}

/// Law: a withdrawal pays into the account given, and into the configured
/// account only when none is given; it moves the amount asked for under the
/// key given.
pub proof fn lemma_withdraw_uses_given_destination(
    config: Config,
    token: Seq<char>,
    pot_id: Seq<char>,
    amount: u64,
    key: Seq<char>,
    destination_account_id: Option<String>,
)
    ensures
        ({
            let f = withdraw_request_view(config, token, pot_id, amount, key, destination_account_id).form;
            &&& destination_account_id matches Some(a) ==> f[0] == ("destination_account_id"@, a@)
            &&& destination_account_id is None ==> f[0] == ("destination_account_id"@, config.monzo.account_id@)
            &&& f[1] == ("amount"@, decimal(amount as nat))
            &&& f[2] == ("dedupe_id"@, key)
        }),
{
}

} // verus!
