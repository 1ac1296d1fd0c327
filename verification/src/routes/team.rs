//! The team page: the people behind the bot, as the worker lists them.

use vstd::prelude::*;
use crate::error::{CommunicationError, RequestError, ServerError};
use crate::redis::{TeamInfo, TeamMember};

verus! {

/// The members that answer a request for the team, out of what the call to
/// the worker came to.
pub fn team_info(outcome: Result<TeamInfo, CommunicationError>) -> (r: Result<
    Vec<TeamMember>,
    RequestError,
>)
    ensures
        r == match outcome {
            Ok(info) => Ok(info.members),
            Err(e) => Err(RequestError::Server(ServerError::Communication(e))),
        },
{
    match outcome {
        Ok(info) => Ok(info.members),
        Err(e) => Err(RequestError::Server(ServerError::Communication(e))),
    }
}

} // verus!
