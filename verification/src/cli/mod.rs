pub mod accounts;
pub mod attachments;
pub mod balance;
pub mod common;
pub mod diagnose;
pub mod feed;
pub mod logout;
pub mod pots;
pub mod receipts;
pub mod transactions;
pub mod webhooks;
pub mod whoami;

use vstd::prelude::*;

verus! {

/// The `monzoctl` command line.
pub struct Cli {
    pub command: Command,
}

/// The `monzoctl` subcommands.
pub enum Command {
    /// Check config, tokens, and Monzo API connectivity.
    Diagnose,
    /// Manage the Monzo webhook registered against this server.
    Webhooks(webhooks::WebhooksArgs),
}

} // verus!
