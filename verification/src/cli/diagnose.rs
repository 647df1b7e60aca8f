use vstd::prelude::*;

use crate::cli::common::{CONFIG_PATH, local_reauth_url, reauth_page};
use crate::config::{Config, Tokens};
use crate::http::{is_success_status, success_status, UNAUTHORIZED};
use crate::pots::{category_of, is_spending_category, pot_category, spending_categories, spending_category_names};
use crate::text::{decimal, decimal_string, ends_with, has_suffix, join, joined, text_eq, texts};

verus! {

/// A report line that says a check passed.
pub open spec fn ok_line(msg: Seq<char>) -> Seq<char> {
    "[OK]   "@ + msg
}

/// A report line that says a check found something to look at.
pub open spec fn warn_line(msg: Seq<char>) -> Seq<char> {
    "[WARN] "@ + msg
}

/// A report line that says a check failed.
pub open spec fn fail_line(msg: Seq<char>) -> Seq<char> {
    "[FAIL] "@ + msg
}

/// A report line with advice on the line above.
pub open spec fn hint_line(msg: Seq<char>) -> Seq<char> {
    "         → "@ + msg
}

fn prefixed(prefix: &str, msg: &str) -> (line: String)
    ensures
        line@ == prefix@ + msg@,
{
    let mut line = String::from_str(prefix);
    line.append(msg);
    line
}

/// "[OK]   " and the message.
pub fn ok(msg: &str) -> (line: String)
    ensures
        line@ == ok_line(msg@),
{
    prefixed("[OK]   ", msg)
}

/// "[WARN] " and the message.
pub fn warn(msg: &str) -> (line: String)
    ensures
        line@ == warn_line(msg@),
{
    prefixed("[WARN] ", msg)
}

/// "[FAIL] " and the message.
pub fn fail(msg: &str) -> (line: String)
    ensures
        line@ == fail_line(msg@),
{
    prefixed("[FAIL] ", msg)
}

/// The indented arrow and the message.
pub fn hint(msg: &str) -> (line: String)
    ensures
        line@ == hint_line(msg@),
{
    prefixed("         → ", msg)
}

/// The reply to one of the diagnostic calls: none (with the reason), or a
/// status (with its display text) and what the body gave.
pub enum Probe<T> {
    Unreachable(String),
    Answered { status: u16, status_text: String, body: T },
}

/// What the diagnostics do after a step.
#[derive(PartialEq, Eq, Structural, Clone, Copy)]
pub enum Next {
    CheckIdentity,
    ListAccounts,
    ListPots,
    ListWebhooks,
    Stop,
}

/// The lines a step prints and what comes after it.
pub struct Report {
    pub lines: Vec<String>,
    pub next: Next,
}

fn emit(lines: &mut Vec<String>, line: String)
    ensures
        texts(final(lines)@) == texts(old(lines)@).push(line@),
{
    lines.push(line);
    proof {
        assert(texts(lines@) =~= texts(old(lines)@).push(line@));
    }
}

fn concat3(a: &str, b: &str, c: &str) -> (s: String)
    ensures
        s@ == a@ + b@ + c@,
{
    let mut s = String::from_str(a);
    s.append(b);
    s.append(c);
    s
}

/// The config path as text.
pub open spec fn config_path() -> Seq<char> {
    "/home/ben/.config/monzoboiii/config.toml"@
}

/// The opening of the report and the config check.
pub open spec fn config_lines(loaded: Result<Config, String>) -> Seq<Seq<char>> {
    seq!["=== monzoboiii diagnostics ==="@, Seq::empty()] + match loaded {
        Ok(_) => seq![ok_line("Config loaded from "@ + config_path())],
        Err(e) => seq![
            fail_line("Config: "@ + e@),
            hint_line("Copy config.toml.example to "@ + config_path() + " and fill it in"@),
        ],
    }
}

/// First step: the heading and whether the configuration could be loaded
/// (with the reason when not); without a configuration the run stops.
pub fn check_config(loaded: &Result<Config, String>) -> (r: Report)
    ensures
        texts(r.lines@) == config_lines(*loaded),
        r.next == (if loaded is Ok { Next::CheckIdentity } else { Next::Stop }),
{
    let mut lines = Vec::new();
    emit(&mut lines, String::from_str("=== monzoboiii diagnostics ==="));
    emit(&mut lines, String::new());
    match loaded {
        Ok(_) => {
            emit(&mut lines, ok(concat3("Config loaded from ", CONFIG_PATH, "").as_str()));
            proof {
                reveal_strlit("");
                assert(texts(lines@) =~= config_lines(*loaded));
            }
            Report { lines, next: Next::CheckIdentity }
        },
        Err(e) => {
            emit(&mut lines, fail(prefixed("Config: ", e.as_str()).as_str()));
            emit(&mut lines, hint(concat3("Copy config.toml.example to ", CONFIG_PATH, " and fill it in").as_str()));
            proof {
                assert(texts(lines@) =~= config_lines(*loaded));
            }
            Report { lines, next: Next::Stop }
        },
    }
}

/// The token check.
pub open spec fn token_lines(config: Config, tokens: Tokens) -> Seq<Seq<char>> {
    if tokens.access_token@.len() == 0 {
        seq![
            warn_line("No tokens — not yet authenticated"@),
            hint_line("Start the server and visit "@ + local_reauth_url(config.app.port)),
            Seq::empty(),
            "Cannot check the Monzo API without tokens. Authenticate first."@,
        ]
    } else {
        seq![ok_line("Tokens found"@)]
    }
}

/// Second step: without an access token the run stops with advice on how
/// to get one.
pub fn check_tokens(config: &Config, tokens: &Tokens) -> (r: Report)
    ensures
        texts(r.lines@) == token_lines(*config, *tokens),
        r.next == (if tokens.access_token@.len() == 0 { Next::Stop } else { Next::CheckIdentity }),
{
    let mut lines = Vec::new();
    if !tokens.is_authenticated() {
        emit(&mut lines, warn("No tokens — not yet authenticated"));
        emit(&mut lines, hint(prefixed("Start the server and visit ", reauth_page(config.app.port).as_str()).as_str()));
        emit(&mut lines, String::new());
        emit(&mut lines, String::from_str("Cannot check the Monzo API without tokens. Authenticate first."));
        proof {
            assert(texts(lines@) =~= token_lines(*config, *tokens));
        }
        Report { lines, next: Next::Stop }
    } else {
        emit(&mut lines, ok("Tokens found"));
        proof {
            assert(texts(lines@) =~= token_lines(*config, *tokens));
        }
        Report { lines, next: Next::CheckIdentity }
    }
}

/// The identity check.
pub open spec fn identity_lines(config: Config, probe: Probe<Option<String>>) -> Seq<Seq<char>> {
    match probe {
        Probe::Unreachable(e) => seq![fail_line("Cannot reach Monzo API: "@ + e@)],
        Probe::Answered { status, status_text, body } => if status == 401 {
            seq![
                fail_line("Auth token is invalid or expired"@),
                hint_line("Visit "@ + local_reauth_url(config.app.port) + " to re-authenticate"@),
            ]
        } else if !is_success_status(status) {
            seq![fail_line("Monzo API returned unexpected status "@ + status_text@)]
        } else {
            seq![ok_line("Authenticated (user_id: "@ + match body {
                Some(u) => u@,
                None => "unknown"@,
            } + ")"@)]
        },
    }
}

/// Third step, given the reply to `/ping/whoami` (and the user id in its
/// body): only an authenticated reply lets the run go on.
pub fn check_identity(config: &Config, probe: Probe<Option<String>>) -> (r: Report)
    ensures
        texts(r.lines@) == identity_lines(*config, probe),
        r.next == (if probe matches Probe::Answered { status, .. } && is_success_status(status) && status != 401 {
            Next::ListAccounts
        } else {
            Next::Stop
        }),
{
    let ghost p = probe;
    let mut lines = Vec::new();
    match probe {
        Probe::Unreachable(e) => {
            emit(&mut lines, fail(prefixed("Cannot reach Monzo API: ", e.as_str()).as_str()));
            proof {
                assert(texts(lines@) =~= identity_lines(*config, p));
            }
            Report { lines, next: Next::Stop }
        },
        Probe::Answered { status, status_text, body } => {
            if status == UNAUTHORIZED {
                emit(&mut lines, fail("Auth token is invalid or expired"));
                emit(
                    &mut lines,
                    hint(concat3("Visit ", reauth_page(config.app.port).as_str(), " to re-authenticate").as_str()),
                );
                proof {
                    assert(texts(lines@) =~= identity_lines(*config, p));
                }
                Report { lines, next: Next::Stop }
            } else if !success_status(status) {
                emit(&mut lines, fail(prefixed("Monzo API returned unexpected status ", status_text.as_str()).as_str()));
                proof {
                    assert(texts(lines@) =~= identity_lines(*config, p));
                }
                Report { lines, next: Next::Stop }
            } else {
                let user = match body {
                    Some(u) => u,
                    None => String::from_str("unknown"),
                };
                emit(&mut lines, ok(concat3("Authenticated (user_id: ", user.as_str(), ")").as_str()));
                proof {
                    assert(texts(lines@) =~= identity_lines(*config, p));
                }
                Report { lines, next: Next::ListAccounts }
            }
        },
    }
}

/// The strings that are present, in order.
pub open spec fn present(v: Seq<Option<String>>) -> Seq<Seq<char>>
    decreases v.len(),
{
    if v.len() == 0 {
        Seq::empty()
    } else {
        present(v.drop_last()) + match v.last() {
            Some(s) => seq![s@],
            None => Seq::empty(),
        }
    }
}

fn present_strings(v: &Vec<Option<String>>) -> (r: Vec<String>)
    ensures
        texts(r@) == present(v@),
{
    let mut r: Vec<String> = Vec::new();
    let mut i: usize = 0;
    while i < v.len()
        invariant
            i <= v@.len(),
            texts(r@) == present(v@.take(i as int)),
        decreases v@.len() - i,
    {
        proof {
            assert(v@.take(i + 1).drop_last() =~= v@.take(i as int));
        }
        if let Some(s) = &v[i] {
            emit(&mut r, s.clone());
        }
        proof {
            let t = v@.take(i + 1);
            assert(t.last() == v@[i as int]);
            assert(texts(r@) =~= present(t));
        }
        i = i + 1;
    }
    proof {
        assert(v@.take(v@.len() as int) =~= v@);
    }
    r
}

/// Whether a list of texts holds a text.
fn holds(list: &Vec<String>, item: &str) -> (r: bool)
    ensures
        r == texts(list@).contains(item@),
{
    let mut i: usize = 0;
    while i < list.len()
        invariant
            i <= list@.len(),
            forall|j: int| 0 <= j < i ==> texts(list@)[j] != item@,
        decreases list@.len() - i,
    {
        if text_eq(list[i].as_str(), item) {
            proof {
                assert(texts(list@)[i as int] == item@);
            }
            return true;
        }
        i = i + 1;
    }
    false
}

/// The closing lines of an account check that did not confirm the account.
pub open spec fn fix_account_lines() -> Seq<Seq<char>> {
    seq![Seq::empty(), "Fix account_id before checking pots and webhooks."@]
}

/// The account check.
pub open spec fn account_lines(config: Config, probe: Probe<Vec<Option<String>>>) -> Seq<Seq<char>> {
    match probe {
        Probe::Unreachable(e) => seq![warn_line("Could not reach accounts endpoint: "@ + e@)] + fix_account_lines(),
        Probe::Answered { status, status_text, body } => if !is_success_status(status) {
            seq![warn_line("Could not list accounts ("@ + status_text@ + ")"@)] + fix_account_lines()
        } else {
            let ids = present(body@);
            let acc = config.monzo.account_id@;
            if ids.contains(acc) {
                seq![ok_line("account_id ("@ + acc + ") confirmed"@)]
            } else {
                seq![fail_line("Configured account_id ("@ + acc + ") not found in your accounts"@)] + (if ids.len()
                    == 0 {
                    seq![hint_line("No accounts returned — you may need to re-authenticate"@)]
                } else {
                    seq![
                        hint_line("Your account IDs: "@ + joined(ids, ", "@)),
                        hint_line("Update account_id in "@ + config_path() + " and restart the server"@),
                    ]
                }) + fix_account_lines()
            }
        },
    }
}

/// Whether the account check confirmed the configured account.
pub open spec fn account_confirmed(config: Config, probe: Probe<Vec<Option<String>>>) -> bool {
    probe matches Probe::Answered { status, body, .. } && is_success_status(status) && present(body@).contains(
        config.monzo.account_id@,
    )
}

fn emit_fix_account(lines: &mut Vec<String>)
    ensures
        texts(final(lines)@) == texts(old(lines)@) + fix_account_lines(),
{
    emit(lines, String::new());
    emit(lines, String::from_str("Fix account_id before checking pots and webhooks."));
    proof {
        assert(texts(lines@) =~= texts(old(lines)@) + fix_account_lines());
    }
}

/// Fourth step, given the reply to `/accounts` (and the id of each account
/// where it has one): the run goes on only when the configured account is
/// among them.
pub fn check_accounts(config: &Config, probe: Probe<Vec<Option<String>>>) -> (r: Report)
    ensures
        texts(r.lines@) == account_lines(*config, probe),
        r.next == (if account_confirmed(*config, probe) { Next::ListPots } else { Next::Stop }),
{
    let ghost p = probe;
    let mut lines = Vec::new();
    match probe {
        Probe::Unreachable(e) => {
            emit(&mut lines, warn(prefixed("Could not reach accounts endpoint: ", e.as_str()).as_str()));
            emit_fix_account(&mut lines);
            proof {
                assert(texts(lines@) =~= account_lines(*config, p));
            }
            Report { lines, next: Next::Stop }
        },
        Probe::Answered { status, status_text, body } => {
            if !success_status(status) {
                emit(&mut lines, warn(concat3("Could not list accounts (", status_text.as_str(), ")").as_str()));
                emit_fix_account(&mut lines);
                proof {
                    assert(texts(lines@) =~= account_lines(*config, p));
                }
                return Report { lines, next: Next::Stop };
            }
            let ids = present_strings(&body);
            let acc = config.monzo.account_id.as_str();
            if holds(&ids, acc) {
                emit(&mut lines, ok(concat3("account_id (", acc, ") confirmed").as_str()));
                proof {
                    assert(texts(lines@) =~= account_lines(*config, p));
                }
                Report { lines, next: Next::ListPots }
            } else {
                emit(&mut lines, fail(concat3("Configured account_id (", acc, ") not found in your accounts").as_str()));
                if ids.len() == 0 {
                    emit(&mut lines, hint("No accounts returned — you may need to re-authenticate"));
                } else {
                    emit(&mut lines, hint(prefixed("Your account IDs: ", join(&ids, ", ").as_str()).as_str()));
                    emit(
                        &mut lines,
                        hint(concat3("Update account_id in ", CONFIG_PATH, " and restart the server").as_str()),
                    );
                }
                emit_fix_account(&mut lines);
                proof {
                    assert(texts(lines@) =~= account_lines(*config, p));
                }
                Report { lines, next: Next::Stop }
            }
        },
    }
}

/// A pot as the diagnostics read it: each member where it has the right
/// type.
pub struct PotListing {
    pub id: Option<String>,
    pub name: Option<String>,
    pub deleted: Option<bool>,
}

/// How a listed pot is reported: not marked deleted, with a name and an id,
/// and a name that stands for a spending category.
pub open spec fn pot_summary(p: PotListing) -> Option<Seq<char>> {
    if p.deleted == Some(true) {
        None
    } else {
        match (p.name, p.id) {
            (Some(n), Some(i)) => if spending_categories().contains(category_of(n@)) {
                Some(category_of(n@) + " ("@ + i@ + ")"@)
            } else {
                None
            },
            _ => None,
        }
    }
}

/// The reports of the spending pots among a listing, in order.
pub open spec fn pot_summaries(v: Seq<PotListing>) -> Seq<Seq<char>>
    decreases v.len(),
{
    if v.len() == 0 {
        Seq::empty()
    } else {
        pot_summaries(v.drop_last()) + match pot_summary(v.last()) {
            Some(s) => seq![s],
            None => Seq::empty(),
        }
    }
}

fn summarize_pot(p: &PotListing) -> (r: Option<String>)
    ensures
        opt_view(r) == pot_summary(*p),
{
    if p.deleted == Some(true) {
        return None;
    }
    match (&p.name, &p.id) {
        (Some(n), Some(i)) => {
            let category = pot_category(n.as_str());
            if is_spending_category(category.as_str()) {
                let mut line = concat3(category.as_str(), " (", i.as_str());
                line.append(")");
                Some(line)
            } else {
                None
            }
        },
        _ => None,
    }
}

/// The text of an optional string.
pub open spec fn opt_view(o: Option<String>) -> Option<Seq<char>> {
    match o {
        Some(s) => Some(s@),
        None => None,
    }
}

fn spending_pots(v: &Vec<PotListing>) -> (r: Vec<String>)
    ensures
        texts(r@) == pot_summaries(v@),
{
    let mut r: Vec<String> = Vec::new();
    let mut i: usize = 0;
    while i < v.len()
        invariant
            i <= v@.len(),
            texts(r@) == pot_summaries(v@.take(i as int)),
        decreases v@.len() - i,
    {
        proof {
            assert(v@.take(i + 1).drop_last() =~= v@.take(i as int));
        }
        if let Some(s) = summarize_pot(&v[i]) {
            emit(&mut r, s);
        }
        proof {
            let t = v@.take(i + 1);
            assert(t.last() == v@[i as int]);
            assert(texts(r@) =~= pot_summaries(t));
        }
        i = i + 1;
    }
    proof {
        assert(v@.take(v@.len() as int) =~= v@);
    }
    r
}

/// The pot check.
pub open spec fn pot_lines(probe: Probe<Vec<PotListing>>) -> Seq<Seq<char>> {
    match probe {
        Probe::Unreachable(e) => seq![warn_line("Could not reach pots endpoint: "@ + e@)],
        Probe::Answered { status, status_text, body } => if !is_success_status(status) {
            seq![warn_line("Could not list pots ("@ + status_text@ + ")"@)]
        } else {
            let found = pot_summaries(body@);
            if found.len() == 0 {
                seq![
                    warn_line("No spending-category pots found"@),
                    hint_line("Create pots in the Monzo app with names from this list:"@),
                    hint_line(joined(spending_categories(), ", "@)),
                ]
            } else {
                seq![ok_line(decimal(found.len()) + " spending pot(s) found: "@ + joined(found, ", "@))]
            }
        },
    }
}

/// Fifth step, given the reply to `/pots`: which spending pots exist; the
/// run goes on to the webhooks in any case.
pub fn check_pots(probe: Probe<Vec<PotListing>>) -> (r: Report)
    ensures
        texts(r.lines@) == pot_lines(probe),
        r.next == Next::ListWebhooks,
{
    let ghost p = probe;
    let mut lines = Vec::new();
    match probe {
        Probe::Unreachable(e) => {
            emit(&mut lines, warn(prefixed("Could not reach pots endpoint: ", e.as_str()).as_str()));
        },
        Probe::Answered { status, status_text, body } => {
            if !success_status(status) {
                emit(&mut lines, warn(concat3("Could not list pots (", status_text.as_str(), ")").as_str()));
            } else {
                let found = spending_pots(&body);
                if found.len() == 0 {
                    emit(&mut lines, warn("No spending-category pots found"));
                    emit(&mut lines, hint("Create pots in the Monzo app with names from this list:"));
                    let names = spending_category_names();
                    emit(&mut lines, hint(join(&names, ", ").as_str()));
                } else {
                    let count = decimal_string(found.len() as u128);
                    emit(
                        &mut lines,
                        ok(concat3(count.as_str(), " spending pot(s) found: ", join(&found, ", ").as_str()).as_str()),
                    );
                }
            }
        },
    }
    proof {
        assert(texts(lines@) =~= pot_lines(p));
    }
    Report { lines, next: Next::ListWebhooks }
}

/// The URLs that are present and end with `suffix`, in order.
pub open spec fn matching_urls(v: Seq<Option<String>>, suffix: Seq<char>) -> Seq<Seq<char>>
    decreases v.len(),
{
    if v.len() == 0 {
        Seq::empty()
    } else {
        matching_urls(v.drop_last(), suffix) + match v.last() {
            Some(u) => if has_suffix(u@, suffix) {
                seq![u@]
            } else {
                Seq::empty()
            },
            None => Seq::empty(),
        }
    }
}

fn urls_ending_with(v: &Vec<Option<String>>, suffix: &str) -> (r: Vec<String>)
    ensures
        texts(r@) == matching_urls(v@, suffix@),
{
    let mut r: Vec<String> = Vec::new();
    let mut i: usize = 0;
    while i < v.len()
        invariant
            i <= v@.len(),
            texts(r@) == matching_urls(v@.take(i as int), suffix@),
        decreases v@.len() - i,
    {
        proof {
            assert(v@.take(i + 1).drop_last() =~= v@.take(i as int));
        }
        if let Some(u) = &v[i] {
            if ends_with(u.as_str(), suffix) {
                emit(&mut r, u.clone());
            }
        }
        proof {
            let t = v@.take(i + 1);
            assert(t.last() == v@[i as int]);
            assert(texts(r@) =~= matching_urls(t, suffix@));
        }
        i = i + 1;
    }
    proof {
        assert(v@.take(v@.len() as int) =~= v@);
    }
    r
}

/// A registered webhook's URL as listed, with "?" for a missing one.
pub open spec fn existing_line(url: Option<String>) -> Seq<char> {
    "    "@ + match url {
        Some(u) => u@,
        None => "?"@,
    }
}

/// The curl command that registers the webhook, with the placeholder host.
pub open spec fn register_command_lines(config: Config, tokens: Tokens) -> Seq<Seq<char>> {
    seq![
        Seq::empty(),
        "  curl -X POST https://api.monzo.com/webhooks \\"@,
        "    -H 'Authorization: Bearer "@ + tokens.access_token@ + "' \\"@,
        "    -d 'account_id="@ + config.monzo.account_id@ + "' \\"@,
        "    -d 'url=https://YOUR_PUBLIC_HOST/webhook/monzo/"@ + config.app.secret@ + "'"@,
        Seq::empty(),
    ]
}

/// The webhook check and the closing line of the report.
pub open spec fn webhook_lines(config: Config, tokens: Tokens, probe: Probe<Vec<Option<String>>>) -> Seq<Seq<char>> {
    webhook_check_lines(config, tokens, probe) + seq![Seq::empty(), "Diagnostics complete."@]
}

/// The webhook check.
pub open spec fn webhook_check_lines(config: Config, tokens: Tokens, probe: Probe<Vec<Option<String>>>) -> Seq<Seq<char>> {
    match probe {
        Probe::Unreachable(e) => seq![warn_line("Could not reach webhooks endpoint: "@ + e@)],
        Probe::Answered { status, status_text, body } => if !is_success_status(status) {
            seq![warn_line("Could not list webhooks ("@ + status_text@ + ")"@)]
        } else {
            let matched = matching_urls(body@, "/webhook/monzo/"@ + config.app.secret@);
            if matched.len() == 0 {
                seq![
                    warn_line("No webhook registered matching your secret"@),
                    hint_line("Register one with this curl command (replace YOUR_PUBLIC_HOST):"@),
                ] + register_command_lines(config, tokens) + if body@.len() > 0 {
                    seq!["  Existing webhooks on this account:"@] + body@.map_values(|u: Option<String>| existing_line(u))
                        + seq![Seq::empty()]
                } else {
                    Seq::empty()
                }
            } else {
                seq![ok_line("Webhook registered: "@ + matched[0])]
            }
        },
    }
}

/// Last step, given the reply to `/webhooks` (and the URL of each webhook
/// where it has one): whether a webhook with this server's secret path is
/// registered, and if not, the command that registers one and the webhooks
/// that exist; then the closing line.
pub fn check_webhooks(config: &Config, tokens: &Tokens, probe: Probe<Vec<Option<String>>>) -> (r: Report)
    ensures
        texts(r.lines@) == webhook_lines(*config, *tokens, probe),
        r.next == Next::Stop,
{
    let ghost p = probe;
    let mut lines = Vec::new();
    match probe {
        Probe::Unreachable(e) => {
            emit(&mut lines, warn(prefixed("Could not reach webhooks endpoint: ", e.as_str()).as_str()));
        },
        Probe::Answered { status, status_text, body } => {
            if !success_status(status) {
                emit(&mut lines, warn(concat3("Could not list webhooks (", status_text.as_str(), ")").as_str()));
            } else {
                let suffix = prefixed("/webhook/monzo/", config.app.secret.as_str());
                let matched = urls_ending_with(&body, suffix.as_str());
                if matched.len() == 0 {
                    emit(&mut lines, warn("No webhook registered matching your secret"));
                    emit(&mut lines, hint("Register one with this curl command (replace YOUR_PUBLIC_HOST):"));
                    emit(&mut lines, String::new());
                    emit(&mut lines, String::from_str("  curl -X POST https://api.monzo.com/webhooks \\"));
                    emit(
                        &mut lines,
                        concat3("    -H 'Authorization: Bearer ", tokens.access_token.as_str(), "' \\"),
                    );
                    emit(&mut lines, concat3("    -d 'account_id=", config.monzo.account_id.as_str(), "' \\"));
                    emit(
                        &mut lines,
                        concat3(
                            "    -d 'url=https://YOUR_PUBLIC_HOST/webhook/monzo/",
                            config.app.secret.as_str(),
                            "'",
                        ),
                    );
                    emit(&mut lines, String::new());
                    if body.len() > 0 {
                        let ghost before = texts(lines@);
                        emit(&mut lines, String::from_str("  Existing webhooks on this account:"));
                        let mut i: usize = 0;
                        while i < body.len()
                            invariant
                                i <= body@.len(),
                                texts(lines@) == before + seq!["  Existing webhooks on this account:"@]
                                    + body@.take(i as int).map_values(|u: Option<String>| existing_line(u)),
                            decreases body@.len() - i,
                        {
                            let shown = match &body[i] {
                                Some(u) => u.clone(),
                                None => String::from_str("?"),
                            };
                            emit(&mut lines, prefixed("    ", shown.as_str()));
                            proof {
                                assert(body@.take(i + 1).map_values(|u: Option<String>| existing_line(u))
                                    =~= body@.take(i as int).map_values(|u: Option<String>| existing_line(u)).push(
                                    existing_line(body@[i as int]),
                                ));
                            }
                            i = i + 1;
                        }
                        proof {
                            assert(body@.take(body@.len() as int) =~= body@);
                        }
                        emit(&mut lines, String::new());
                    }
                } else {
                    emit(&mut lines, ok(prefixed("Webhook registered: ", matched[0].as_str()).as_str()));
                }
            }
        },
    }
    emit(&mut lines, String::new());
    emit(&mut lines, String::from_str("Diagnostics complete."));
    proof {
        assert(texts(lines@) =~= webhook_lines(*config, *tokens, p));
    }
    Report { lines, next: Next::Stop }
}

proof fn lemma_present_has(v: Seq<Option<String>>, i: int, s: String)
    requires
        0 <= i < v.len(),
        v[i] == Some(s),
    ensures
        present(v).contains(s@),
    decreases v.len(),
{
    let d = v.drop_last();
    if i == v.len() - 1 {
        let tail: Seq<Seq<char>> = seq![s@];
        assert(present(v) == present(d) + tail);
        assert(present(v)[present(d).len() as int] == s@);
    } else {
        assert(d[i] == v[i]);
        lemma_present_has(d, i, s);
        let j = choose|j: int| 0 <= j < present(d).len() && present(d)[j] == s@;
        let tail: Seq<Seq<char>> = match v.last() {
            Some(x) => seq![x@],
            None => Seq::empty(),
        };
        assert(present(v) == present(d) + tail);
        assert(present(v)[j] == s@);
    }
}

/// Law: when `/accounts` answers with a success and the configured
/// account_id is among the listed ids, at whatever position, the account
/// check prints only the line that confirms it and the run goes on to the
/// pots.
pub proof fn lemma_listed_account_confirmed(
    config: Config,
    status: u16,
    status_text: String,
    body: Vec<Option<String>>,
    i: int,
    s: String,
)
    requires
        200 <= status <= 299,
        0 <= i < body@.len(),
        body@[i] == Some(s),
        s@ == config.monzo.account_id@,
    ensures
        account_confirmed(config, Probe::Answered { status, status_text, body }),
        account_lines(config, Probe::Answered { status, status_text, body }) == seq![
            ok_line("account_id ("@ + config.monzo.account_id@ + ") confirmed"@),
        ],
{
    lemma_present_has(body@, i, s);
}

} // verus!
