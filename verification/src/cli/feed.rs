use vstd::prelude::*;

use crate::cli::common::{api_request, base_url};
use crate::cli::pots::text_or;
use crate::config::Config;
use crate::http::{ApiRequest, Method, RequestView, pair};

verus! {

/// `monzoctl feed`: a basic feed item.
pub struct FeedArgs {
    pub title: String,
    pub image_url: String,
    pub body: Option<String>,
    /// Opened when the item is tapped.
    pub url: Option<String>,
    /// Hex colours, #RRGGBB.
    pub background_color: Option<String>,
    pub title_color: Option<String>,
    pub body_color: Option<String>,
    /// The configured account by default.
    pub account_id: Option<String>,
}

/// A form field that is sent only when it has a value.
pub open spec fn optional_field(name: Seq<char>, value: Option<String>) -> Seq<(Seq<char>, Seq<char>)> {
    match value {
        Some(v) => seq![(name, v@)],
        None => Seq::empty(),
    }
}

/// The form of a feed item: account, type "basic", title and image, then
/// whichever of url, body and the three colours are given, in that order.
pub open spec fn feed_form(args: FeedArgs, config: Config) -> Seq<(Seq<char>, Seq<char>)> {
    seq![
        ("account_id"@, text_or(args.account_id, config.monzo.account_id@)),
        ("type"@, "basic"@),
        ("params[title]"@, args.title@),
        ("params[image_url]"@, args.image_url@),
    ] + optional_field("url"@, args.url) + optional_field("params[body]"@, args.body) + optional_field(
        "params[background_color]"@,
        args.background_color,
    ) + optional_field("params[title_color]"@, args.title_color) + optional_field(
        "params[body_color]"@,
        args.body_color,
    )
}

/// Appends a field when it has a value.
fn push_optional(form: &mut Vec<(String, String)>, name: &str, value: Option<String>)
    ensures
        crate::http::pairs(final(form)@) == crate::http::pairs(old(form)@) + optional_field(name@, value),
{
    let ghost v = value;
    match value {
        Some(v) => form.push(pair(name, v)),
        None => {},
    }
    proof {
        assert(crate::http::pairs(form@) =~= crate::http::pairs(old(form)@) + optional_field(name@, v));
    }
}

/// Creates a feed item.
pub fn feed_request(args: FeedArgs, config: &Config, token: &str) -> (r: ApiRequest)
    ensures
        r@ == (RequestView {
            body: None,
            method: Method::Post,
            url: base_url() + "/feed"@,
            bearer: Some(token@),
            query: Seq::empty(),
            form: feed_form(args, *config),
        }),
{
    let ghost a = args;
    let account = match args.account_id {
        Some(a) => a,
        None => config.monzo.account_id.clone(),
    };
    let mut form = Vec::new();
    form.push(pair("account_id", account));
    form.push(pair("type", String::from_str("basic")));
    form.push(pair("params[title]", args.title));
    form.push(pair("params[image_url]", args.image_url));
    proof {
        assert(crate::http::pairs(form@) =~= seq![
            ("account_id"@, text_or(a.account_id, config.monzo.account_id@)),
            ("type"@, "basic"@),
            ("params[title]"@, a.title@),
            ("params[image_url]"@, a.image_url@),
        ]);
    }
    push_optional(&mut form, "url", args.url);
    push_optional(&mut form, "params[body]", args.body);
    push_optional(&mut form, "params[background_color]", args.background_color);
    push_optional(&mut form, "params[title_color]", args.title_color);
    push_optional(&mut form, "params[body_color]", args.body_color);
    let r = api_request(Method::Post, "/feed", token, Vec::new(), form);
    proof {
        assert(r@.query =~= Seq::empty());
    }
    r
}

/// Law: a feed item goes to the account given, and to the configured
/// account only when none is given; it is a basic item with the title and
/// image given.
pub proof fn lemma_feed_uses_given_account(args: FeedArgs, config: Config)
    ensures
        ({
            let f = feed_form(args, config);
            &&& args.account_id matches Some(a) ==> f[0] == ("account_id"@, a@)
            &&& args.account_id is None ==> f[0] == ("account_id"@, config.monzo.account_id@)
            &&& f[1] == ("type"@, "basic"@)
            &&& f[2] == ("params[title]"@, args.title@)
            &&& f[3] == ("params[image_url]"@, args.image_url@)
        }),
{
}

} // verus!
