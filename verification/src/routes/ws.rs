//! The dashboard socket: the handshake that opens it. The protocol that is
//! spoken on it is in [`session`], the handlers behind it in [`identify`]
//! and [`guild_list`].

use vstd::prelude::*;
use vstd::string::*;
use crate::digest::{base64_encoding, base64_fits, base64_of, sha1_digest, sha1_of};
use crate::error::{BadRequestError, RequestError};

pub mod guild_list;
pub mod identify;
pub mod models;
pub mod session;

verus! {

/// The text that the handshake appends to the client's key.
pub const WS_GUID: &'static str = "258EAFA5-E914-47DA-95CA-C5AB0DC85B11";

/// The status that answers an upgrade request: switching protocols.
pub const SWITCHING_PROTOCOLS: u16 = 101;

/// What the handshake digests for a client key: the key with the fixed
/// text after it.
pub fn accept_input(key: &[u8]) -> (input: Vec<u8>)
    ensures
        input@ == key@ + WS_GUID.spec_bytes(),
{
    let mut input: Vec<u8> = Vec::new();
    input.extend_from_slice(key);
    input.extend_from_slice(WS_GUID.as_bytes());
    assert(input@ =~= key@ + WS_GUID.spec_bytes());
    input
}

/// The accept token that stands for a digest: its base64 text.
pub fn accept_text(digest: &[u8]) -> (accept: String)
    requires
        base64_fits(digest@.len()),
    ensures
        accept@ == base64_encoding(digest@),
{
    base64_of(digest)
}

/// The accept token that answers the client key `key` in the upgrade
/// handshake: the base64 text of the SHA-1 digest of the key followed by
/// the fixed text.
pub fn accept_key(key: &[u8]) -> (accept: String)
    ensures
        accept@ == base64_encoding(sha1_digest(key@ + WS_GUID.spec_bytes())),
{
    let input = accept_input(key);
    let digest = sha1_of(input.as_slice());
    accept_text(digest.as_slice())
}

/// The answer to an upgrade request that is granted.
#[derive(Debug, Clone, PartialEq, Eq)]
pub struct Handshake {
    /// The status of the response.
    pub status: u16,
    /// The value of the `Upgrade` header.
    pub upgrade: String,
    /// The value of the `Connection` header.
    pub connection: String,
    /// The value of the `Sec-WebSocket-Accept` header.
    pub accept: String,
}

/// Answers a request for the socket. `upgrade` says whether the request
/// has an `Upgrade` header, `key` holds its `Sec-WebSocket-Key` header. A
/// request without the one or the other is refused before any session
/// starts.
pub fn ws(upgrade: bool, key: Option<&[u8]>) -> (r: Result<Handshake, RequestError>)
    ensures
        match r {
            Ok(handshake) => {
                &&& upgrade
                &&& key matches Some(k)
                &&& handshake.status == SWITCHING_PROTOCOLS
                &&& handshake.upgrade@ == "WebSocket"@
                &&& handshake.connection@ == "Upgrade"@
                &&& handshake.accept@ == base64_encoding(sha1_digest(k@ + WS_GUID.spec_bytes()))
            },
            Err(e) => e == (if !upgrade {
                RequestError::BadRequest(BadRequestError::UpgradeOnly)
            } else {
                RequestError::BadRequest(BadRequestError::MissingWsKey)
            }) && (!upgrade || key is None),
        },
{
    if !upgrade {
        return Err(RequestError::BadRequest(BadRequestError::UpgradeOnly));
    }
    match key {
        Some(k) => Ok(
            Handshake {
                status: SWITCHING_PROTOCOLS,
                upgrade: String::from_str("WebSocket"),
                connection: String::from_str("Upgrade"),
                accept: accept_key(k),
            },
        ),
        None => Err(RequestError::BadRequest(BadRequestError::MissingWsKey)),
    }
}

} // verus!
