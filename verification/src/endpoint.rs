//! Endpoint URLs: what counts as one, and how an authorization URL is put
//! together from a base and its query parameters.

use vstd::prelude::*;

verus! {

/// Whether `text` parses as an absolute URL.
pub uninterp spec fn url_parses(text: Seq<char>) -> bool;

/// The text of the URL that comes of parsing `base` and appending `pairs`, in
/// order and form-urlencoded, to its query.
pub uninterp spec fn url_with_query(base: Seq<char>, pairs: Seq<(Seq<char>, Seq<char>)>) -> Seq<
    char,
>;

/// Upper bound, in bytes of UTF-8, on the texts that go into one
/// authorization URL, with two bytes counted for each parameter. URLs are
/// limited to 4 GB; this bound keeps a URL far below that limit whatever
/// its parameters need in escaping.
pub const MAX_URL_TEXT_BYTES: u64 = 0x0100_0000;

/// The number of bytes in the UTF-8 form of `text`.
pub open spec fn utf8_len(text: Seq<char>) -> nat {
    vstd::utf8::encode_utf8(text).len()
}

/// The number of bytes in the UTF-8 forms of all names and values of
/// `pairs`, and two more for each pair, for the signs that set it off.
pub open spec fn pairs_utf8_len(pairs: Seq<(Seq<char>, Seq<char>)>) -> nat
    decreases pairs.len(),
{
    if pairs.len() == 0 {
        0
    } else {
        pairs_utf8_len(pairs.drop_last()) + utf8_len(pairs.last().0) + utf8_len(pairs.last().1)
            + 2
    }
}

/// The views of a list of owned name/value pairs.
pub open spec fn pairs_view(pairs: Seq<(String, String)>) -> Seq<(Seq<char>, Seq<char>)> {
    Seq::new(pairs.len(), |i: int| (pairs[i].0@, pairs[i].1@))
}

/// The three parameters that open every authorization query.
pub open spec fn leading_pairs(
    response_type: Seq<char>,
    client_id: Seq<char>,
    state: Seq<char>,
) -> Seq<(Seq<char>, Seq<char>)> {
    seq![
        ("response_type"@, response_type),
        ("client_id"@, client_id),
        ("state"@, state),
    ]
}

/// Calls `url::Url::parse` and reports whether it accepted `text`. The
/// parser accepts absolute URLs only.
#[verifier::external_body]
pub(crate) fn parses_as_url(text: &str) -> (ok: bool)
    ensures
        ok == url_parses(text@),
{
    url::Url::parse(text).is_ok()
}

/// Builds an authorization URL with `oauth2::AuthorizationRequest::url`, on
/// a request that has its response type set and `params` added as extra
/// parameters, and no scope, redirect URL or PKCE challenge of its own. That
/// function appends `response_type`, `client_id` and `state`, then the extra
/// parameters in the order they were added, to the query of the parsed
/// authorization URL. The `requires` keeps the URL under the length limit of
/// the URL type, beyond which appending can panic.
#[verifier::external_body]
pub(crate) fn authorization_url_text(
    auth_url: &str,
    response_type: &str,
    client_id: &str,
    state: &str,
    params: &Vec<(String, String)>,
) -> (r: String)
    requires
        url_parses(auth_url@),
        utf8_len(auth_url@) + utf8_len(response_type@) + utf8_len(client_id@) + utf8_len(state@)
            + pairs_utf8_len(pairs_view(params@)) <= MAX_URL_TEXT_BYTES,
    ensures
        r@ == url_with_query(
            auth_url@,
            leading_pairs(response_type@, client_id@, state@) + pairs_view(params@),
        ),
{
    let client = oauth2::basic::BasicClient::new(
        oauth2::ClientId::new(client_id.to_string()),
        None,
        oauth2::AuthUrl::new(auth_url.to_string()).unwrap(),
        None,
    );
    let mut request = client
        .authorize_url(|| oauth2::CsrfToken::new(state.to_string()))
        .set_response_type(&oauth2::ResponseType::new(response_type.to_string()));
    for (name, value) in params.iter() {
        request = request.add_extra_param(name.as_str(), value.as_str());
    }
    request.url().0.to_string()
}

} // verus!
