use gearbot_api::error::{RequestError, ServerError};
use gearbot_api::models::UserGuild;
use gearbot_api::util::{
    bearer, get_user_guilds, get_user_id, guilds_key, provider_answer, provider_status,
    session_token, GuildsSource, GUILDS_REFUSED, GUILDS_TTL, GUILDS_UNREADABLE, GUILDS_URL,
    SESSION_TTL,
};

fn some_guild() -> UserGuild {
    UserGuild {
        id: 365498559174410241,
        name: "The Gearbox".to_string(),
        icon: None,
        owner: false,
        permissions: 0,
        features: vec![],
    }
}

#[test]
fn token_cookie_alone() {
    assert_eq!(session_token("token=abc"), Some("abc".to_string()));
}

#[test]
fn token_cookie_among_others() {
    assert_eq!(
        session_token("theme=dark; token=abc; lang=en"),
        Some("abc".to_string())
    );
    assert_eq!(session_token("a=1; b=2; token=xyz"), Some("xyz".to_string()));
}

#[test]
fn first_token_cookie_wins() {
    assert_eq!(
        session_token("token=first; token=second"),
        Some("first".to_string())
    );
}

#[test]
fn token_value_may_hold_equal_signs() {
    assert_eq!(
        session_token("token=q83vEjRWeJBCNEV4kBI0Vg=="),
        Some("q83vEjRWeJBCNEV4kBI0Vg==".to_string())
    );
}

#[test]
fn empty_token_value_is_a_token() {
    assert_eq!(session_token("token="), Some(String::new()));
}

#[test]
fn header_without_token_cookie_has_none() {
    assert_eq!(session_token(""), None);
    assert_eq!(session_token("theme=dark"), None);
    assert_eq!(session_token("theme=dark; lang=en"), None);
    assert_eq!(session_token("token"), None);
    assert_eq!(session_token("tokens=abc"), None);
    assert_eq!(session_token("xtoken=abc"), None);
    assert_eq!(session_token(" token=abc"), None);
}

#[test]
fn cookies_are_parted_by_semicolon_and_space_only() {
    assert_eq!(session_token("theme=dark;token=abc"), None);
    assert_eq!(
        session_token("token=abc;def; x=1"),
        Some("abc;def".to_string())
    );
    assert_eq!(session_token("x=1;  token=abc"), None);
}

#[test]
fn cookie_text_may_be_any_unicode() {
    assert_eq!(
        session_token("n\u{e4}me=v\u{e4}lue; token=\u{1f600}"),
        Some("\u{1f600}".to_string())
    );
}

#[test]
fn user_is_looked_up_under_the_session_key() {
    assert_eq!(
        get_user_id(Some("theme=dark; token=abc")),
        Some("dash_token:abc".to_string())
    );
}

#[test]
fn request_without_session_has_no_user() {
    assert_eq!(get_user_id(None), None);
    assert_eq!(get_user_id(Some("theme=dark")), None);
}

#[test]
fn guilds_key_is_in_the_guilds_namespace() {
    assert_eq!(guilds_key(42), "guilds:42");
    assert_eq!(guilds_key(0), "guilds:0");
}

#[test]
fn cache_times_are_the_fixed_ones() {
    assert_eq!(GUILDS_TTL, 180);
    assert_eq!(SESSION_TTL, 7 * 24 * 60 * 60);
}

#[test]
fn bearer_header_presents_the_token() {
    assert_eq!(bearer("tok"), "Bearer tok");
}

#[test]
fn cached_guilds_are_used() {
    assert_eq!(
        get_user_guilds(Some(vec![some_guild()]), "tok"),
        GuildsSource::Cached(vec![some_guild()])
    );
}

#[test]
fn uncached_guilds_are_asked_of_the_provider() {
    assert_eq!(
        get_user_guilds(None, "tok"),
        GuildsSource::Provider {
            url: "https://discord.com/api/v8/users/@me/guilds".to_string(),
            authorization: "Bearer tok".to_string(),
        }
    );
    assert_eq!(GUILDS_URL, "https://discord.com/api/v8/users/@me/guilds");
}

#[test]
fn provider_failure_texts_are_the_fixed_ones() {
    assert_eq!(GUILDS_REFUSED, "Failed to retreive user guilds!");
    assert_eq!(GUILDS_UNREADABLE, "Failed to get user guilds: ");
}

#[test]
fn provider_status_other_than_ok_is_a_failure() {
    assert_eq!(provider_status(200, "Failed to retreive user guilds!"), Ok(()));
    assert_eq!(
        provider_status(401, "Failed to retreive user guilds!"),
        Err(RequestError::Server(ServerError::DiscordError(
            "Failed to retreive user guilds!".to_string()
        )))
    );
    assert_eq!(
        provider_status(204, "x"),
        Err(RequestError::Server(ServerError::DiscordError("x".to_string())))
    );
}

#[test]
fn provider_answer_that_does_not_decode_is_a_failure() {
    assert_eq!(
        provider_answer(Ok(vec![some_guild()]), "Failed to get user guilds: "),
        Ok(vec![some_guild()])
    );
    assert_eq!(
        provider_answer::<Vec<UserGuild>>(Err("eof".to_string()), "Failed to get user guilds: "),
        Err(RequestError::Server(ServerError::DiscordError(
            "Failed to get user guilds: eof".to_string()
        )))
    );
}
