# monzoboiii

A small server and command-line tool around the Monzo API. When a card
payment lands on the account, Monzo calls the server's webhook; if the
transaction is marked eligible for pot cover, the server moves the amount
spent out of the pot named after the transaction's spending category.

The library is written in Verus and proved against its contracts:

- `src/webhook.rs`: the webhook decision (secret, event type, account,
  eligibility) and the handler as a series of steps.
- `src/monzo.rs`: the API requests, token responses, the rule for an
  expired access token (refresh once, send once more), and the steps of a
  withdrawal and of a pot-list refresh.
- `src/pots.rs`: the spending categories and the category-to-pot map.
- `src/auth.rs`: the authorization URL and the OAuth callback's answers.
- `src/cli/`: the requests and texts of each `monzoctl` subcommand, the
  webhook registration tool and the `diagnose` checks.
- `src/text.rs`, `src/http.rs`, `src/config.rs`: strings, requests and
  configuration.

`app/` holds what runs around the library: the HTTP server, the HTTP
client, file and console I/O, and the command-line parsers. It performs
the steps that the library decides and hands back what came of them.

`tests/` runs the library on concrete scenarios.
