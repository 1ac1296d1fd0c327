//! What a request says of its user: the session token in its cookies, and
//! the guilds that the provider lists for the user.

use vstd::prelude::*;
use vstd::string::*;
use crate::error::{RequestError, ServerError};
use crate::models::UserGuild;
use crate::routes::ws::identify::{session_key, SESSION_KEY_PREFIX};
use crate::text::{
    chars_of, decimal, find_char, find_from, lemma_find_first, pieces, split, split_ranges, spells,
    to_decimal,
};

verus! {

/// The name of the cookie that holds the session token.
pub const TOKEN_COOKIE: &'static str = "token";

/// What parts one cookie from the next in a `Cookie` header.
pub const COOKIE_SEPARATOR: &'static str = "; ";

/// The prefix of the cache keys under which guild lists are kept.
pub const GUILDS_KEY_PREFIX: &'static str = "guilds:";

/// The seconds for which a guild list stays in the cache.
pub const GUILDS_TTL: u32 = 180;

/// The seconds for which a session token and a provider token stay in the
/// cache: seven days.
pub const SESSION_TTL: u32 = 604800;

/// Where the provider lists the guilds of the user that a token stands for.
pub const GUILDS_URL: &'static str = "https://discord.com/api/v8/users/@me/guilds";

/// What is reported when the provider refuses to list the guilds.
pub const GUILDS_REFUSED: &'static str = "Failed to retreive user guilds!";

/// What is reported, before the decoder's complaint, when the provider's
/// list of guilds does not decode.
pub const GUILDS_UNREADABLE: &'static str = "Failed to get user guilds: ";

/// The status of a provider response that went well.
pub const STATUS_OK: u16 = 200;

/// The value of the cookie `piece` if its name is `name`: what follows its
/// first `=`. A piece without `=` is no cookie.
pub open spec fn cookie_value(piece: Seq<char>, name: Seq<char>) -> Option<Seq<char>> {
    let eq = find_from(piece, seq!['='], 0);
    if eq < piece.len() && piece.take(eq) == name {
        Some(piece.skip(eq + 1))
    } else {
        None
    }
}

/// The value of the first of `cookies` that is named `name`.
pub open spec fn first_cookie(cookies: Seq<Seq<char>>, name: Seq<char>) -> Option<Seq<char>>
    decreases cookies.len(),
{
    if cookies.len() == 0 {
        None
    } else {
        match cookie_value(cookies.first(), name) {
            Some(value) => Some(value),
            None => first_cookie(cookies.drop_first(), name),
        }
    }
}

/// The session token that a `Cookie` header holds: the value of its first
/// cookie named `token`.
pub open spec fn session_cookie(header: Seq<char>) -> Option<Seq<char>> {
    first_cookie(split(header, COOKIE_SEPARATOR@), TOKEN_COOKIE@)
}

/// The session token that the `Cookie` header `header` holds, if it holds
/// one.
pub fn session_token(header: &str) -> (token: Option<String>)
    ensures
        match token {
            Some(t) => session_cookie(header@) == Some(t@),
            None => session_cookie(header@) is None,
        },
{
    proof {
        reveal_strlit("; ");
    }
    let chars = chars_of(header);
    let sep = chars_of(COOKIE_SEPARATOR);
    let ranges = split_ranges(&chars, &sep);
    let ghost cookies = split(header@, COOKIE_SEPARATOR@);
    let mut k: usize = 0;
    assert(cookies.skip(0) =~= cookies);
    while k < ranges.len()
        invariant
            chars@ == header@,
            cookies == split(header@, COOKIE_SEPARATOR@),
            cookies == pieces(chars@, ranges@),
            k <= ranges@.len(),
            forall|n: int|
                0 <= n < ranges@.len() ==> (#[trigger] ranges@[n]).0 <= ranges@[n].1
                    <= chars@.len(),
            first_cookie(cookies, TOKEN_COOKIE@) == first_cookie(
                cookies.skip(k as int),
                TOKEN_COOKIE@,
            ),
        decreases ranges@.len() - k,
    {
        let (from, to) = ranges[k];
        let ghost piece = chars@.subrange(from as int, to as int);
        let eq = find_char(&chars, '=', from, to);
        proof {
            assert(cookies.skip(k as int).first() == piece);
            assert(cookies.skip(k as int).drop_first() =~= cookies.skip(k + 1));
            lemma_find_first(piece, '=', 0, eq - from);
            assert(piece.take(eq - from) =~= chars@.subrange(from as int, eq as int));
        }
        if eq < to && spells(&chars, from, eq, TOKEN_COOKIE) {
            let value = header.substring_char(eq + 1, to);
            proof {
                assert(piece.skip(eq - from + 1) =~= header@.subrange(eq + 1, to as int));
                assert(cookie_value(piece, TOKEN_COOKIE@) == Some(value@));
                assert(first_cookie(cookies.skip(k as int), TOKEN_COOKIE@) == Some(value@));
            }
            return Some(String::from_str(value));
        }
        k += 1;
    }
    None
}

/// Where the user of a request is looked up: the cache key of the session
/// token among its cookies. `cookies` is the request's `Cookie` header,
/// where it has one that is text. Without a session token nobody is looked
/// up, and the request has no user.
pub fn get_user_id(cookies: Option<&str>) -> (key: Option<String>)
    ensures
        match cookies {
            Some(header) => match session_cookie(header@) {
                Some(token) => key matches Some(k) && k@ == SESSION_KEY_PREFIX@ + token,
                None => key is None,
            },
            None => key is None,
        },
{
    match cookies {
        Some(header) => match session_token(header) {
            Some(token) => Some(session_key(token.as_str())),
            None => None,
        },
        None => None,
    }
}

/// The cache key under which the guild list of user `user_id` is kept.
pub fn guilds_key(user_id: u64) -> (key: String)
    ensures
        key@ == GUILDS_KEY_PREFIX@ + decimal(user_id as nat),
{
    let mut key = String::from_str(GUILDS_KEY_PREFIX);
    let id = to_decimal(user_id);
    key.append(id.as_str());
    key
}

/// The `Authorization` header that presents the provider token `token`.
pub fn bearer(token: &str) -> (header: String)
    ensures
        header@ == "Bearer "@ + token@,
{
    let mut header = String::from_str("Bearer ");
    header.append(token);
    header
}

/// Where the guild list of a user comes from.
#[derive(Debug, Clone, PartialEq, Eq)]
pub enum GuildsSource {
    /// The cache held the list.
    Cached(Vec<UserGuild>),
    /// The provider is to be asked, with this `Authorization` header.
    Provider { url: String, authorization: String },
}

/// Says where the guild list of a user comes from: from the cache where it
/// held one, else from the provider, who is asked in the name of `token`.
pub fn get_user_guilds(cached: Option<Vec<UserGuild>>, token: &str) -> (source: GuildsSource)
    ensures
        match cached {
            Some(list) => source == GuildsSource::Cached(list),
            None => source matches GuildsSource::Provider { url, authorization } && url@
                == GUILDS_URL@ && authorization@ == "Bearer "@ + token@,
        },
{
    match cached {
        Some(list) => GuildsSource::Cached(list),
        None => GuildsSource::Provider {
            url: String::from_str(GUILDS_URL),
            authorization: bearer(token),
        },
    }
}

/// The failure of a provider request that came back with `status`, if it
/// is one. `what` says what failed.
pub fn provider_status(status: u16, what: &str) -> (r: Result<(), RequestError>)
    ensures
        status == STATUS_OK ==> r is Ok,
        status != STATUS_OK ==> (r matches Err(
            RequestError::Server(ServerError::DiscordError(text)),
        ) && text@ == what@),
{
    if status == STATUS_OK {
        Ok(())
    } else {
        Err(RequestError::Server(ServerError::DiscordError(String::from_str(what))))
    }
}

/// What a provider's answer comes to. `decoded` is its body as it decoded,
/// or the decoder's complaint, which the failure then carries after
/// `what`.
pub fn provider_answer<T>(decoded: Result<T, String>, what: &str) -> (r: Result<T, RequestError>)
    ensures
        match decoded {
            Ok(value) => r == Ok::<T, RequestError>(value),
            Err(detail) => r matches Err(RequestError::Server(ServerError::DiscordError(text)))
                && text@ == what@ + detail@,
        },
{
    match decoded {
        Ok(value) => Ok(value),
        Err(detail) => {
            let mut text = String::from_str(what);
            text.append(detail.as_str());
            Err(RequestError::Server(ServerError::DiscordError(text)))
        },
    }
}

} // verus!
