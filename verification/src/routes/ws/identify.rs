//! The identify handler: from a session token to the user behind it.
//!
//! The handler looks the token up in the cache and then asks the worker for
//! the user. It creates no session: tokens are handed out at login.

use vstd::prelude::*;
use vstd::string::*;
use crate::error::{CommunicationError, DatabaseError, WSMessageError};
use crate::redis::UserInfo;

verus! {

/// The prefix of the cache keys under which session tokens are kept.
pub const SESSION_KEY_PREFIX: &'static str = "dash_token:";

/// The cache key under which the user of session token `token` is kept.
pub fn session_key(token: &str) -> (key: String)
    ensures
        key@ == SESSION_KEY_PREFIX@ + token@,
{
    let mut key = String::from_str(SESSION_KEY_PREFIX);
    key.append(token);
    key
}

/// The user whose session token was looked up, from what the cache said. A
/// token that the cache does not hold is a bad authorization.
pub fn session_user(cached: Result<Option<u64>, DatabaseError>) -> (r: Result<u64, WSMessageError>)
    ensures
        r == match cached {
            Ok(Some(user_id)) => Ok(user_id),
            Ok(None) => Err(WSMessageError::BadAuthorization),
            Err(e) => Err(WSMessageError::Database(e)),
        },
{
    match cached {
        Ok(Some(user_id)) => Ok(user_id),
        Ok(None) => Err(WSMessageError::BadAuthorization),
        Err(e) => Err(WSMessageError::Database(e)),
    }
}

/// The outcome of identifying as `user_id`, from what the worker said of
/// that user. A user that the worker does not know is a bad authorization.
pub fn identify(user_id: u64, info: Result<Option<UserInfo>, CommunicationError>) -> (r: Result<
    (u64, UserInfo),
    WSMessageError,
>)
    ensures
        r == match info {
            Ok(Some(user_info)) => Ok((user_id, user_info)),
            Ok(None) => Err(WSMessageError::BadAuthorization),
            Err(e) => Err(WSMessageError::Communication(e)),
        },
{
    match info {
        Ok(Some(user_info)) => Ok((user_id, user_info)),
        Ok(None) => Err(WSMessageError::BadAuthorization),
        Err(e) => Err(WSMessageError::Communication(e)),
    }
}

} // verus!
