use vstd::prelude::*;

use crate::cli::common::{api_request, base_url};
use crate::http::{ApiRequest, Method, RequestView, pair};

verus! {

/// `monzoctl receipts`.
pub struct ReceiptsArgs {
    pub command: ReceiptsCommand,
}

/// The `receipts` subcommands.
pub enum ReceiptsCommand {
    /// Create or update a receipt from a JSON file in Monzo's receipt schema.
    Create { file: String },
    /// Retrieve a receipt by its external id.
    Get { external_id: String },
    /// Delete a receipt by its external id.
    Delete { external_id: String },
}

/// The request of a `receipts` subcommand. For `Create` this is the bare
/// PUT; the request that is sent carries the receipt as its JSON body (see
/// `receipt_create_request`).
pub open spec fn receipts_request_view(command: ReceiptsCommand, token: Seq<char>) -> RequestView {
    match command {
        ReceiptsCommand::Create { .. } => RequestView {
            body: None,
            method: Method::Put,
            url: base_url() + "/transaction-receipts"@,
            bearer: Some(token),
            query: Seq::empty(),
            form: Seq::empty(),
        },
        ReceiptsCommand::Get { external_id } => RequestView {
            body: None,
            method: Method::Get,
            url: base_url() + "/transaction-receipts"@,
            bearer: Some(token),
            query: seq![("external_id"@, external_id@)],
            form: Seq::empty(),
        },
        ReceiptsCommand::Delete { external_id } => RequestView {
            body: None,
            method: Method::Delete,
            url: base_url() + "/transaction-receipts"@,
            bearer: Some(token),
            query: seq![("external_id"@, external_id@)],
            form: Seq::empty(),
        },
    }
}

/// The request of a `receipts` subcommand.
pub fn receipts_request(command: &ReceiptsCommand, token: &str) -> (r: ApiRequest)
    ensures
        r@ == receipts_request_view(*command, token@),
{
    let (method, query) = match command {
        ReceiptsCommand::Create { .. } => (Method::Put, Vec::new()),
        ReceiptsCommand::Get { external_id } => {
            let mut q = Vec::new();
            q.push(pair("external_id", external_id.clone()));
            (Method::Get, q)
        },
        ReceiptsCommand::Delete { external_id } => {
            let mut q = Vec::new();
            q.push(pair("external_id", external_id.clone()));
            (Method::Delete, q)
        },
    };
    let r = api_request(method, "/transaction-receipts", token, query, Vec::new());
    proof {
        assert(r@.query =~= receipts_request_view(*command, token@).query);
        assert(r@.form =~= Seq::empty());
    }
    r
}

/// The bytes that `serde_json` writes (`to_vec`) for the JSON value that it
/// reads (`from_str` into a `Value`) from a text, or none where the text is
/// not a JSON document. These are the bytes that a request's JSON body
/// carries.
pub uninterp spec fn json_body(text: Seq<char>) -> Option<Seq<u8>>;

/// `serde_json::from_str::<Value>`, then `serde_json::to_vec` of the value:
/// the JSON body for a text, or serde_json's message where the text is not
/// JSON. The result depends on the text alone; the message is not stated.
#[verifier::external_body]
fn parse_json_body(text: &str) -> (r: Result<Vec<u8>, String>)
    ensures
        match r {
            Ok(b) => json_body(text@) == Some(b@),
            Err(_) => json_body(text@) is None,
        },
{
    match serde_json::from_str::<serde_json::Value>(text) {
        Ok(v) => match serde_json::to_vec(&v) {
            Ok(b) => Ok(b),
            Err(e) => Err(e.to_string()),
        },
        Err(e) => Err(e.to_string()),
    }
}

/// The request that creates or updates a receipt, with the receipt's JSON
/// body.
pub open spec fn receipt_create_view(token: Seq<char>, body: Seq<u8>) -> RequestView {
    RequestView {
        method: Method::Put,
        url: base_url() + "/transaction-receipts"@,
        bearer: Some(token),
        query: Seq::empty(),
        form: Seq::empty(),
        body: Some(body),
    }
}

/// The request that creates or updates a receipt, given its JSON body.
pub fn receipt_request_with_body(token: &str, body: Vec<u8>) -> (r: ApiRequest)
    ensures
        r@ == receipt_create_view(token@, body@),
{
    let mut r = api_request(Method::Put, "/transaction-receipts", token, Vec::new(), Vec::new());
    r.body = Some(body);
    proof {
        assert(r@.query =~= Seq::empty());
        assert(r@.form =~= Seq::empty());
    }
    r
}

/// `receipts create`: the request whose body is the receipt text read as
/// JSON, or serde_json's message where the text is not JSON.
pub fn receipt_create_request(token: &str, receipt: &str) -> (r: Result<ApiRequest, String>)
    ensures
        match json_body(receipt@) {
            Some(b) => r matches Ok(req) && req@ == receipt_create_view(token@, b),
            None => r is Err,
        },
{
    match parse_json_body(receipt) {
        Ok(body) => Ok(receipt_request_with_body(token, body)),
        Err(m) => Err(m),
    }
}

} // verus!
