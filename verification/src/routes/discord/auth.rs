//! The second step of a login: the provider sends the user back with a
//! code, the gateway trades the code for a token, learns whose it is, and
//! hands the browser a session.

use vstd::prelude::*;
use vstd::string::*;
use crate::config::ApiConfig;
use crate::digest::{base64_encoding, base64_fits, base64_of, random_bytes};
use crate::error::{BadRequestError, RequestError};
use crate::routes::discord::login::{pair, Redirect, TEMPORARY_REDIRECT};
use crate::text::{decimal, same_text, to_decimal};
use crate::util::bearer;

verus! {

/// Where a code is traded for a token.
pub const TOKEN_URL: &'static str = "https://discord.com/api/oauth2/token";

/// Where the provider says whose a token is.
pub const USER_URL: &'static str = "https://discord.com/api/v8/users/@me";

/// The content type of the trade's body.
pub const FORM_CONTENT_TYPE: &'static str = "application/x-www-form-urlencoded";

/// The prefix of the cache keys under which the users of provider tokens
/// are kept.
pub const USER_KEY_PREFIX: &'static str = "userid:";

/// What is logged and reported when the provider refuses.
pub const EXCHANGE_FAILED: &'static str = "Oauth2 token exchange failed!";

/// What is reported, before the decoder's complaint, when the provider's
/// token does not decode.
pub const TOKEN_UNREADABLE: &'static str = "Failed to receive token response: ";

/// What is reported, before the decoder's complaint, when the provider's
/// account of the user does not decode.
pub const USER_UNREADABLE: &'static str = "Failed to receive current user info response: ";

/// The name of the parameter in which the provider hands over the code.
pub const CODE: &'static str = "code";

/// The name and value pairs that the `application/x-www-form-urlencoded`
/// text `query` holds, as `form_urlencoded::parse` reads them.
pub uninterp spec fn form_pairs(query: Seq<u8>) -> Seq<(Seq<char>, Seq<char>)>;

/// The `application/x-www-form-urlencoded` text of `pairs`, as
/// `serde_urlencoded::to_string` writes it, where it writes one.
pub uninterp spec fn form_body(pairs: Seq<(Seq<char>, Seq<char>)>) -> Option<Seq<char>>;

/// Calls `form_urlencoded::parse` on `query` and collects the pairs that
/// it yields. Claimed without proof: the pairs are a function of the text
/// alone.
#[verifier::external_body]
fn parse_query(query: &[u8]) -> (pairs: Vec<(String, String)>)
    ensures
        pairs.deep_view() == form_pairs(query@),
{
    form_urlencoded::parse(query).into_owned().collect()
}

/// Calls `serde_urlencoded::to_string` on `pairs`. Claimed without proof:
/// whether a text comes back, and which, is a function of the pairs alone.
#[verifier::external_body]
fn form_body_of(pairs: &Vec<(String, String)>) -> (body: Option<String>)
    ensures
        body.deep_view() == form_body(pairs.deep_view()),
{
    serde_urlencoded::to_string(pairs).ok()
}

/// The value of the first of `pairs` that is named `name`.
pub open spec fn first_named(pairs: Seq<(Seq<char>, Seq<char>)>, name: Seq<char>) -> Option<
    Seq<char>,
>
    decreases pairs.len(),
{
    if pairs.len() == 0 {
        None
    } else if pairs.first().0 == name {
        Some(pairs.first().1)
    } else {
        first_named(pairs.drop_first(), name)
    }
}

/// The parameters of the trade of `code` for a token.
pub open spec fn exchange_params(
    application_id: u64,
    client_secret: Seq<char>,
    redirect_uri: Seq<char>,
    code: Seq<char>,
) -> Seq<(Seq<char>, Seq<char>)> {
    seq![
        ("client_id"@, decimal(application_id as nat)),
        ("client_secret"@, client_secret),
        ("grant_type"@, "authorization_code"@),
        ("code"@, code),
        ("redirect_uri"@, redirect_uri),
        ("scope"@, "identify guilds"@),
    ]
}

/// The `Set-Cookie` header that hands the session token `token` to the
/// browser for seven days.
pub open spec fn cookie_text(token: Seq<char>, secure: bool) -> Seq<char> {
    "token="@ + token + "; Max-Age=604800; "@ + (if secure {
        "Secure; SameSite=Strict;"@
    } else {
        Seq::<char>::empty()
    }) + "; path=/"@
}

/// Where the browser goes once it holds its session.
pub open spec fn user_page(domain: Seq<char>, secure: bool) -> Seq<char> {
    (if secure {
        "https"@
    } else {
        "http"@
    }) + "://"@ + domain + "/api/discord/user"@
}

/// The code that the first of `pairs` named `code` holds.
pub fn code_among(pairs: &Vec<(String, String)>) -> (code: Option<String>)
    ensures
        code.deep_view() == first_named(pairs.deep_view(), CODE@),
{
    let ghost all = pairs.deep_view();
    let mut i: usize = 0;
    assert(all.skip(0) =~= all);
    while i < pairs.len()
        invariant
            i <= pairs@.len(),
            all == pairs.deep_view(),
            first_named(all, CODE@) == first_named(all.skip(i as int), CODE@),
        decreases pairs@.len() - i,
    {
        assert(all.skip(i as int).first() == all[i as int]);
        assert(all.skip(i as int).drop_first() =~= all.skip(i + 1));
        if same_text(pairs[i].0.as_str(), CODE) {
            return Some(pairs[i].1.clone());
        }
        i += 1;
    }
    None
}

/// The code with which the provider sent a user back. `query` is the query
/// of the request, where it has one. A request without a code is refused.
pub fn auth(query: Option<&str>) -> (r: Result<String, RequestError>)
    ensures
        match query {
            Some(q) => match first_named(form_pairs(q.spec_bytes()), CODE@) {
                Some(code) => r matches Ok(c) && c@ == code,
                None => r == Err::<String, RequestError>(
                    RequestError::BadRequest(BadRequestError::NoAccessCode),
                ),
            },
            None => r == Err::<String, RequestError>(
                RequestError::BadRequest(BadRequestError::NoAccessCode),
            ),
        },
{
    match query {
        Some(q) => {
            let pairs = parse_query(q.as_bytes());
            match code_among(&pairs) {
                Some(code) => Ok(code),
                None => Err(RequestError::BadRequest(BadRequestError::NoAccessCode)),
            }
        },
        None => Err(RequestError::BadRequest(BadRequestError::NoAccessCode)),
    }
}

/// The parameters of the trade of `code` for a token, for the application
/// of `config`.
pub fn exchange_pairs(config: &ApiConfig, code: &str) -> (pairs: Vec<(String, String)>)
    ensures
        pairs.deep_view() == exchange_params(
            config.application_id,
            config.client_secret@,
            config.redirect_uri@,
            code@,
        ),
{
    let id = to_decimal(config.application_id);
    let mut pairs: Vec<(String, String)> = Vec::new();
    pairs.push(pair("client_id", id.as_str()));
    pairs.push(pair("client_secret", config.client_secret.as_str()));
    pairs.push(pair("grant_type", "authorization_code"));
    pairs.push(pair("code", code));
    pairs.push(pair("redirect_uri", config.redirect_uri.as_str()));
    pairs.push(pair("scope", "identify guilds"));
    assert(pairs.deep_view() =~= exchange_params(
        config.application_id,
        config.client_secret@,
        config.redirect_uri@,
        code@,
    ));
    pairs
}

/// A request that the gateway posts to the provider.
#[derive(Debug, Clone, PartialEq, Eq)]
pub struct Post {
    pub url: String,
    pub content_type: String,
    pub body: String,
}

/// The request that trades `code` for a token, where its parameters can be
/// written as a form.
pub fn token_request(config: &ApiConfig, code: &str) -> (post: Option<Post>)
    ensures
        match form_body(
            exchange_params(
                config.application_id,
                config.client_secret@,
                config.redirect_uri@,
                code@,
            ),
        ) {
            Some(body) => post matches Some(p) && p.url@ == TOKEN_URL@ && p.content_type@
                == FORM_CONTENT_TYPE@ && p.body@ == body,
            None => post is None,
        },
{
    let pairs = exchange_pairs(config, code);
    match form_body_of(&pairs) {
        Some(body) => Some(
            Post {
                url: String::from_str(TOKEN_URL),
                content_type: String::from_str(FORM_CONTENT_TYPE),
                body,
            },
        ),
        None => None,
    }
}

/// The cache key under which the user of provider token `access_token` is
/// kept.
pub fn token_key(access_token: &str) -> (key: String)
    ensures
        key@ == USER_KEY_PREFIX@ + access_token@,
{
    let mut key = String::from_str(USER_KEY_PREFIX);
    key.append(access_token);
    key
}

/// The seconds for which the user of a provider token stays in the cache:
/// the low 32 bits of the seconds for which the token is good.
pub fn token_ttl(expires_in: u64) -> (seconds: u32)
    ensures
        seconds == expires_in % 0x1_0000_0000,
{
    (expires_in % 0x1_0000_0000) as u32
}

/// Where the user of a provider token is learned from.
#[derive(Debug, Clone, PartialEq, Eq)]
pub enum UserSource {
    /// The cache knew the user.
    Cached(u64),
    /// The provider is to be asked, with this `Authorization` header.
    Provider { url: String, authorization: String },
}

/// Says where the user of `access_token` is learned from: from the cache
/// where it knew the token, else from the provider.
pub fn token_user(cached: Option<u64>, access_token: &str) -> (source: UserSource)
    ensures
        match cached {
            Some(user_id) => source == UserSource::Cached(user_id),
            None => source matches UserSource::Provider { url, authorization } && url@ == USER_URL@
                && authorization@ == "Bearer "@ + access_token@,
        },
{
    match cached {
        Some(user_id) => UserSource::Cached(user_id),
        None => UserSource::Provider {
            url: String::from_str(USER_URL),
            authorization: bearer(access_token),
        },
    }
}

/// The session token that stands for the random bytes `raw`: their base64
/// text.
pub fn session_text(raw: &[u8]) -> (token: String)
    requires
        base64_fits(raw@.len()),
    ensures
        token@ == base64_encoding(raw@),
{
    base64_of(raw)
}

/// A new session token: the base64 text of sixteen random bytes.
pub fn new_session_token() -> (token: String)
    ensures
        exists|raw: Seq<u8>| raw.len() == 16 && token@ == #[trigger] base64_encoding(raw),
{
    let raw = random_bytes();
    session_text(raw.as_slice())
}

/// The `Set-Cookie` header that hands the session token to the browser.
pub fn session_cookie(token: &str, secure: bool) -> (header: String)
    ensures
        header@ == cookie_text(token@, secure),
{
    let mut header = String::from_str("token=");
    header.append(token);
    header.append("; Max-Age=604800; ");
    if secure {
        header.append("Secure; SameSite=Strict;");
    }
    header.append("; path=/");
    assert(header@ =~= cookie_text(token@, secure));
    header
}

/// Sends the browser on to the page of its user on `domain`.
pub fn user_redirect(domain: &str, secure: bool) -> (redirect: Redirect)
    ensures
        redirect.status == TEMPORARY_REDIRECT,
        redirect.location@ == user_page(domain@, secure),
{
    let mut location = if secure {
        String::from_str("https")
    } else {
        String::from_str("http")
    };
    location.append("://");
    location.append(domain);
    location.append("/api/discord/user");
    assert(location@ =~= user_page(domain@, secure));
    Redirect { status: TEMPORARY_REDIRECT, location }
}

} // verus!
