//! What the gateway tells a browser of the user it is logged in as.

use vstd::prelude::*;
use crate::error::{CommunicationError, RequestError, ServerError};
use crate::redis::UserInfo;

verus! {

/// The status of the answer to a browser whose user is known.
pub const OK: u16 = 200;

/// The status of the answer to a browser that is not logged in.
pub const UNAUTHORIZED: u16 = 401;

/// The answer to a browser that asks who it is logged in as. `found` is
/// what the worker said of the user of the request's session, where the
/// request has a session. The user, where the worker knows one, is the
/// body of the answer; without one the browser is not logged in.
pub fn user_info(found: Option<Result<Option<UserInfo>, CommunicationError>>) -> (r: Result<
    (u16, Option<UserInfo>),
    RequestError,
>)
    ensures
        r == match found {
            Some(Ok(Some(info))) => Ok((OK, Some(info))),
            Some(Ok(None)) => Ok((UNAUTHORIZED, None)),
            Some(Err(e)) => Err(RequestError::Server(ServerError::Communication(e))),
            None => Ok((UNAUTHORIZED, None)),
        },
{
    match found {
        Some(Ok(Some(info))) => Ok((OK, Some(info))),
        Some(Ok(None)) => Ok((UNAUTHORIZED, None)),
        Some(Err(e)) => Err(RequestError::Server(ServerError::Communication(e))),
        None => Ok((UNAUTHORIZED, None)),
    }
}

} // verus!
