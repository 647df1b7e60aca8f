use vstd::prelude::*;
use vstd::utf8::{decode_utf8, encode_utf8, encode_utf8_decode_utf8};

use crate::config::Config;

verus! {

/// The bytes that `urlencoding` passes through unchanged: ASCII letters and
/// digits and `-`, `.`, `_`, `~`.
pub open spec fn unreserved_byte(b: u8) -> bool {
    (48 <= b <= 57) || (65 <= b <= 90) || (97 <= b <= 122) || b == 45 || b == 46 || b == 95 || b == 126
}

/// An uppercase hexadecimal digit.
pub open spec fn hex_digit(d: int) -> char {
    if d < 10 {
        (48 + d) as char
    } else {
        (55 + d) as char
    }
}

/// One byte, percent-encoded.
pub open spec fn percent_encode_byte(b: u8) -> Seq<char> {
    if unreserved_byte(b) {
        seq![b as char]
    } else {
        seq!['%', hex_digit(b as int / 16), hex_digit(b as int % 16)]
    }
}

/// Bytes percent-encoded one by one, in order.
pub open spec fn percent_encoded(bytes: Seq<u8>) -> Seq<char>
    decreases bytes.len(),
{
    if bytes.len() == 0 {
        Seq::empty()
    } else {
        percent_encoded(bytes.drop_last()) + percent_encode_byte(bytes.last())
    }
}

/// The value of a hexadecimal digit character, upper or lower case (0 for
/// any other character).
pub open spec fn hex_value(c: char) -> int {
    if '0' <= c && c <= '9' {
        c as int - 48
    } else if 'A' <= c && c <= 'F' {
        c as int - 55
    } else if 'a' <= c && c <= 'f' {
        c as int - 87
    } else {
        0
    }
}

/// Percent-decoding: "%" and two hex digits stand for the byte they spell,
/// any other character for its own code.
pub open spec fn percent_decoded(s: Seq<char>) -> Seq<u8>
    decreases s.len(),
{
    if s.len() == 0 {
        Seq::empty()
    } else if s[0] == '%' && s.len() >= 3 {
        seq![(hex_value(s[1]) * 16 + hex_value(s[2])) as u8] + percent_decoded(s.subrange(3, s.len() as int))
    } else {
        seq![s[0] as u8] + percent_decoded(s.drop_first())
    }
}

/// A character that may stand in a query value without ending it: an
/// unreserved character or "%".
pub open spec fn query_safe(c: char) -> bool {
    c == '%' || ((c as int) < 128 && unreserved_byte(c as u8))
}

proof fn lemma_percent_encoded_prepend(b: u8, rest: Seq<u8>)
    ensures
        percent_encoded(seq![b] + rest) == percent_encode_byte(b) + percent_encoded(rest),
    decreases rest.len(),
{
    let s = seq![b] + rest;
    assert(s.len() > 0);
    assert(percent_encoded(s) == percent_encoded(s.drop_last()) + percent_encode_byte(s.last()));
    if rest.len() == 0 {
        assert(s.drop_last() =~= Seq::<u8>::empty());
        assert(s.last() == b);
        assert(percent_encoded(Seq::<u8>::empty()) == Seq::<char>::empty());
        assert(percent_encoded(rest) == Seq::<char>::empty());
        assert(percent_encode_byte(b) + percent_encoded(rest) =~= percent_encode_byte(b));
        assert(Seq::<char>::empty() + percent_encode_byte(b) =~= percent_encode_byte(b));
    } else {
        lemma_percent_encoded_prepend(b, rest.drop_last());
        assert(s.drop_last() =~= seq![b] + rest.drop_last());
        assert(s.last() == rest.last());
        assert(percent_encoded(rest) == percent_encoded(rest.drop_last()) + percent_encode_byte(rest.last()));
        assert(percent_encode_byte(b) + percent_encoded(rest.drop_last()) + percent_encode_byte(rest.last())
            =~= percent_encode_byte(b) + (percent_encoded(rest.drop_last()) + percent_encode_byte(rest.last())));
    }
}

proof fn lemma_hex_digit_round_trip(d: int)
    requires
        0 <= d < 16,
    ensures
        hex_value(hex_digit(d)) == d,
        query_safe(hex_digit(d)),
        hex_digit(d) != '%',
{
    if d < 10 {
        assert(((48 + d) as char) as int == 48 + d);
    } else {
        assert(((55 + d) as char) as int == 55 + d);
    }
}

proof fn lemma_percent_encode_byte_shape(b: u8)
    ensures
        unreserved_byte(b) ==> percent_encode_byte(b) == seq![b as char] && (b as char) != '%'
            && ((b as char) as u8) == b && query_safe(b as char),
        !unreserved_byte(b) ==> percent_encode_byte(b) == seq!['%', hex_digit(b as int / 16), hex_digit(b as int % 16)]
            && hex_value(hex_digit(b as int / 16)) * 16 + hex_value(hex_digit(b as int % 16)) == b as int
            && query_safe(hex_digit(b as int / 16)) && query_safe(hex_digit(b as int % 16)),
{
    if unreserved_byte(b) {
        assert((b as char) as int == b as int);
    } else {
        lemma_hex_digit_round_trip(b as int / 16);
        lemma_hex_digit_round_trip(b as int % 16);
    }
}

/// Percent-decoding undoes the percent-encoding, and the encoding holds
/// only characters that cannot end a query value.
pub proof fn lemma_percent_round_trip(bytes: Seq<u8>)
    ensures
        percent_decoded(percent_encoded(bytes)) == bytes,
        forall|i: int| 0 <= i < percent_encoded(bytes).len() ==> #[trigger] query_safe(percent_encoded(bytes)[i]),
    decreases bytes.len(),
{
    if bytes.len() == 0 {
        assert(percent_decoded(percent_encoded(bytes)) =~= bytes);
    } else {
        let b = bytes[0];
        let rest = bytes.drop_first();
        assert(bytes =~= seq![b] + rest);
        lemma_percent_encoded_prepend(b, rest);
        lemma_percent_round_trip(rest);
        lemma_percent_encode_byte_shape(b);
        let head = percent_encode_byte(b);
        let e = head + percent_encoded(rest);
        assert(percent_encoded(bytes) == e);
        if unreserved_byte(b) {
            assert(e[0] == b as char);
            assert(e.drop_first() =~= percent_encoded(rest));
            assert(percent_decoded(e) == seq![b] + percent_decoded(percent_encoded(rest)));
        } else {
            assert(e[0] == '%');
            assert(e.subrange(3, e.len() as int) =~= percent_encoded(rest));
            assert(percent_decoded(e) == seq![b] + percent_decoded(percent_encoded(rest)));
        }
        assert(percent_decoded(e) =~= bytes);
        assert forall|i: int| 0 <= i < e.len() implies #[trigger] query_safe(e[i]) by {
            if i >= head.len() {
                assert(e[i] == percent_encoded(rest)[i - head.len()]);
            }
        }
    }
}

/// `urlencoding::encode`: the UTF-8 bytes of `s`, each percent-encoded
/// ("%" and two uppercase hex digits) unless it is an ASCII letter or digit
/// or one of `-._~`.
#[verifier::external_body]
pub(crate) fn url_encode(s: &str) -> (r: String)
    ensures
        r@ == percent_encoded(encode_utf8(s@)),
{
    urlencoding::encode(s).into_owned()
}

/// The `state` parameter sent to Monzo's authorization page.
pub open spec fn oauth_state() -> Seq<char> {
    "6dbd8dnd9dj"@
}

/// The URL of Monzo's authorization page for this client.
pub open spec fn reauth_url_text(config: Config) -> Seq<char> {
    "https://auth.monzo.com/?client_id="@ + config.monzo.client_id@ + "&redirect_uri="@ + percent_encoded(
        encode_utf8(config.app.redirect_uri@),
    ) + "&response_type=code&state="@ + oauth_state()
}

/// Where `/auth/reauth` sends the browser: Monzo's authorization page with
/// the client id, the encoded redirect URI, `response_type=code` and the
/// state.
pub fn reauth_url(config: &Config) -> (url: String)
    ensures
        url@ == reauth_url_text(*config),
{
    let mut url = String::from_str("https://auth.monzo.com/?client_id=");
    url.append(config.monzo.client_id.as_str());
    url.append("&redirect_uri=");
    let encoded = url_encode(config.app.redirect_uri.as_str());
    url.append(encoded.as_str());
    url.append("&response_type=code&state=");
    url.append("6dbd8dnd9dj");
    url
}

/// Law: the authorization URL carries the client id as given, and a
/// redirect_uri value that holds no character able to end it and that,
/// percent-decoded and read as UTF-8, is the configured redirect URI
/// exactly; `response_type` is "code" and a state is sent.
pub proof fn lemma_reauth_redirect_round_trips(config: Config)
    ensures
        ({
            let v = percent_encoded(encode_utf8(config.app.redirect_uri@));
            &&& reauth_url_text(config) == "https://auth.monzo.com/?client_id="@ + config.monzo.client_id@
                + "&redirect_uri="@ + v + "&response_type=code&state="@ + oauth_state()
            &&& forall|i: int| 0 <= i < v.len() ==> #[trigger] query_safe(v[i])
            &&& decode_utf8(percent_decoded(v)) == config.app.redirect_uri@
        }),
{
    lemma_percent_round_trip(encode_utf8(config.app.redirect_uri@));
    encode_utf8_decode_utf8(config.app.redirect_uri@);
}

/// The query of the OAuth callback.
pub struct CallbackParams {
    pub code: String,
}

/// The answer to the browser at the end of the OAuth callback.
pub struct CallbackReply {
    pub status: u16,
    pub message: String,
}

/// The callback's answer: 200 with a note that the tab can be closed when
/// the code was exchanged and the tokens stored, 500 otherwise.
pub fn callback_reply(exchanged: bool) -> (r: CallbackReply)
    ensures
        exchanged ==> r.status == 200 && r.message@ == "Authenticated — you can close this tab."@,
        !exchanged ==> r.status == 500 && r.message@ == "Auth failed — check logs."@,
{
    if exchanged {
        CallbackReply { status: 200, message: String::from_str("Authenticated — you can close this tab.") }
    } else {
        CallbackReply { status: 500, message: String::from_str("Auth failed — check logs.") }
    }
}

} // verus!
