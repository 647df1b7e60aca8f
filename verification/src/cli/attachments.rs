use vstd::prelude::*;

use crate::cli::common::{api_request, base_url};
use crate::http::{ApiRequest, Method, RequestView, pair};
use crate::text::{decimal, decimal_string};

verus! {

/// `monzoctl attachments`.
pub struct AttachmentsArgs {
    pub command: AttachmentsCommand,
}

/// The `attachments` subcommands.
pub enum AttachmentsCommand {
    /// Obtain a temporary URL for uploading an attachment file.
    Upload { file_name: String, file_type: String, content_length: u64 },
    /// Register an uploaded or hosted file against a transaction.
    Register { transaction_id: String, file_url: String, file_type: String },
    /// Remove an attachment.
    Deregister { id: String },
}

/// The request of an `attachments` subcommand.
pub open spec fn attachments_request_view(command: AttachmentsCommand, token: Seq<char>) -> RequestView {
    match command {
        AttachmentsCommand::Upload { file_name, file_type, content_length } => RequestView {
            body: None,
            method: Method::Post,
            url: base_url() + "/attachment/upload"@,
            bearer: Some(token),
            query: Seq::empty(),
            form: seq![
                ("file_name"@, file_name@),
                ("file_type"@, file_type@),
                ("content_length"@, decimal(content_length as nat)),
            ],
        },
        AttachmentsCommand::Register { transaction_id, file_url, file_type } => RequestView {
            body: None,
            method: Method::Post,
            url: base_url() + "/attachment/register"@,
            bearer: Some(token),
            query: Seq::empty(),
            form: seq![("external_id"@, transaction_id@), ("file_url"@, file_url@), ("file_type"@, file_type@)],
        },
        AttachmentsCommand::Deregister { id } => RequestView {
            body: None,
            method: Method::Post,
            url: base_url() + "/attachment/deregister"@,
            bearer: Some(token),
            query: Seq::empty(),
            form: seq![("id"@, id@)],
        },
    }
}

/// The request of an `attachments` subcommand.
pub fn attachments_request(command: AttachmentsCommand, token: &str) -> (r: ApiRequest)
    ensures
        r@ == attachments_request_view(command, token@),
{
    let ghost c = command;
    match command {
        AttachmentsCommand::Upload { file_name, file_type, content_length } => {
            let mut form = Vec::new();
            form.push(pair("file_name", file_name));
            form.push(pair("file_type", file_type));
            form.push(pair("content_length", decimal_string(content_length as u128)));
            let r = api_request(Method::Post, "/attachment/upload", token, Vec::new(), form);
            proof {
                assert(r@.query =~= attachments_request_view(c, token@).query);
                assert(r@.form =~= attachments_request_view(c, token@).form);
            }
            r
        },
        AttachmentsCommand::Register { transaction_id, file_url, file_type } => {
            let mut form = Vec::new();
            form.push(pair("external_id", transaction_id));
            form.push(pair("file_url", file_url));
            form.push(pair("file_type", file_type));
            let r = api_request(Method::Post, "/attachment/register", token, Vec::new(), form);
            proof {
                assert(r@.query =~= attachments_request_view(c, token@).query);
                assert(r@.form =~= attachments_request_view(c, token@).form);
            }
            r
        },
        AttachmentsCommand::Deregister { id } => {
            let mut form = Vec::new();
            form.push(pair("id", id));
            let r = api_request(Method::Post, "/attachment/deregister", token, Vec::new(), form);
            proof {
                assert(r@.query =~= attachments_request_view(c, token@).query);
                assert(r@.form =~= attachments_request_view(c, token@).form);
            }
            r
        },
    }
}

} // verus!
