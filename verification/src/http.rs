use vstd::prelude::*;

verus! {

/// The HTTP methods that the Monzo API is called with.
#[derive(PartialEq, Eq, Structural, Clone, Copy)]
pub enum Method {
    Get,
    Post,
    Put,
    Patch,
    Delete,
}

/// A call to make: method, full URL, bearer token, query pairs and form
/// pairs (both in the order in which they are sent), and a JSON body.
pub struct ApiRequest {
    pub method: Method,
    pub url: String,
    pub bearer: Option<String>,
    pub query: Vec<(String, String)>,
    pub form: Vec<(String, String)>,
    /// The bytes of a JSON document sent as the body, if any.
    pub body: Option<Vec<u8>>,
}

/// The texts of a list of (name, value) pairs.
pub open spec fn pairs(v: Seq<(String, String)>) -> Seq<(Seq<char>, Seq<char>)> {
    v.map_values(|p: (String, String)| (p.0@, p.1@))
}

/// The text of an optional string.
pub open spec fn opt_text(o: Option<String>) -> Option<Seq<char>> {
    match o {
        Some(s) => Some(s@),
        None => None,
    }
}

/// The plain view of a request.
pub struct RequestView {
    pub method: Method,
    pub url: Seq<char>,
    pub bearer: Option<Seq<char>>,
    pub query: Seq<(Seq<char>, Seq<char>)>,
    pub form: Seq<(Seq<char>, Seq<char>)>,
    pub body: Option<Seq<u8>>,
}

impl View for ApiRequest {
    type V = RequestView;

    open spec fn view(&self) -> RequestView {
        RequestView {
            method: self.method,
            url: self.url@,
            bearer: opt_text(self.bearer),
            query: pairs(self.query@),
            form: pairs(self.form@),
            body: match self.body {
                Some(b) => Some(b@),
                None => None,
            },
        }
    }
}

/// A (name, value) pair from a literal name.
pub fn pair(name: &str, value: String) -> (p: (String, String))
    ensures
        p.0@ == name@,
        p.1@ == value@,
{
    (String::from_str(name), value)
}

/// `error_for_status` turns these statuses into errors: client and server
/// errors.
pub open spec fn is_error_status(status: u16) -> bool {
    400 <= status <= 599
}

/// Whether a status is a client or server error.
pub fn error_status(status: u16) -> (r: bool)
    ensures
        r == is_error_status(status),
{
    400 <= status && status <= 599
}

/// `StatusCode::is_success`: the 2xx statuses.
pub open spec fn is_success_status(status: u16) -> bool {
    200 <= status <= 299
}

/// Whether a status is a success.
pub fn success_status(status: u16) -> (r: bool)
    ensures
        r == is_success_status(status),
{
    200 <= status && status <= 299
}

/// The status that an expired or revoked access token is answered with.
pub const UNAUTHORIZED: u16 = 401;

} // verus!
