//! The first step of a login: the user is sent to the provider.

use vstd::prelude::*;
use vstd::string::*;
use crate::config::ApiConfig;
use crate::text::{decimal, to_decimal};

verus! {

/// Where the provider asks a user for consent, up to the parameters of one
/// application.
pub const AUTHORIZE_URL: &'static str =
    "https://discord.com/api/oauth2/authorize?scope=identify%20guilds&";

/// The status that sends a client elsewhere and has it keep its method.
pub const TEMPORARY_REDIRECT: u16 = 307;

/// A response that sends the client to `location`.
#[derive(Debug, Clone, PartialEq, Eq)]
pub struct Redirect {
    pub status: u16,
    pub location: String,
}

/// The `application/x-www-form-urlencoded` text of `pairs`, as
/// `form_urlencoded::Serializer` writes it.
pub uninterp spec fn form_encoding(pairs: Seq<(Seq<char>, Seq<char>)>) -> Seq<char>;

/// Calls `extend_pairs` and `finish` on a new `form_urlencoded::Serializer`
/// with an empty target. Claimed without proof: the text is a function of
/// the pairs alone.
#[verifier::external_body]
fn urlencode(pairs: &Vec<(String, String)>) -> (query: String)
    ensures
        query@ == form_encoding(pairs.deep_view()),
{
    form_urlencoded::Serializer::new(String::new()).extend_pairs(pairs).finish()
}

/// A pair of a fixed name and a value.
pub(crate) fn pair(name: &str, value: &str) -> (p: (String, String))
    ensures
        p.deep_view() == (name@, value@),
{
    (String::from_str(name), String::from_str(value))
}

/// The parameters with which application `application_id` asks for a
/// login that comes back to `redirect_uri`.
pub open spec fn login_params(application_id: u64, redirect_uri: Seq<char>) -> Seq<
    (Seq<char>, Seq<char>),
> {
    seq![
        ("client_id"@, decimal(application_id as nat)),
        ("redirect_uri"@, redirect_uri),
        ("response_type"@, "code"@),
        ("state"@, "123"@),
        ("prompt"@, "none"@),
    ]
}

/// The parameters with which the application asks for a login.
pub fn login_pairs(application_id: u64, redirect_uri: &str) -> (pairs: Vec<(String, String)>)
    ensures
        pairs.deep_view() == login_params(application_id, redirect_uri@),
{
    let id = to_decimal(application_id);
    let mut pairs: Vec<(String, String)> = Vec::new();
    pairs.push(pair("client_id", id.as_str()));
    pairs.push(pair("redirect_uri", redirect_uri));
    pairs.push(pair("response_type", "code"));
    pairs.push(pair("state", "123"));
    pairs.push(pair("prompt", "none"));
    assert(pairs.deep_view() =~= login_params(application_id, redirect_uri@));
    pairs
}

/// The provider's consent page for the parameters that `query` encodes.
pub fn authorize_url(query: &str) -> (url: String)
    ensures
        url@ == AUTHORIZE_URL@ + query@,
{
    let mut url = String::from_str(AUTHORIZE_URL);
    url.append(query);
    url
}

/// Sends a user who wants to log in to the provider's consent page for the
/// application of `config`.
pub fn login(config: &ApiConfig) -> (redirect: Redirect)
    ensures
        redirect.status == TEMPORARY_REDIRECT,
        redirect.location@ == AUTHORIZE_URL@ + form_encoding(
            login_params(config.application_id, config.redirect_uri@),
        ),
{
    let pairs = login_pairs(config.application_id, config.redirect_uri.as_str());
    let query = urlencode(&pairs);
    Redirect { status: TEMPORARY_REDIRECT, location: authorize_url(query.as_str()) }
}

} // verus!
