//! The failures of the gateway, and how each one is answered: with an HTTP
//! status, by closing a socket with a fixed reason, or by going on.
//!
//! A failure that comes from a transport, a parser or a store carries that
//! collaborator's own account of it as text.

use vstd::prelude::*;
use vstd::string::*;
use vstd::std_specs::convert::FromSpecImpl;

verus! {

/// Why the process could not start.
#[derive(Debug, Clone, PartialEq, Eq)]
pub enum StartupError {
    NoConfig,
    InvalidConfig,
    NoLoggingSpec,
    DarkRedis(String),
}

/// Why an HTTP request was not served.
#[derive(Debug, Clone, PartialEq, Eq)]
pub enum RequestError {
    Server(ServerError),
    BadRequest(BadRequestError),
    NotFound,
    Forbidden,
}

/// Why a call to the peer gave no usable reply.
#[derive(Debug, Clone, PartialEq, Eq)]
pub enum CommunicationError {
    /// No reply came within the call's budget.
    Timeout,
    /// The slot that the reply was to arrive in was dropped.
    Receiver(String),
    /// The broker refused the call.
    DarkRedis(String),
    /// The peer answered another operation than the one asked for.
    WrongReplyType,
    /// The call could not be encoded, or the reply not decoded.
    DataFormat(String),
}

/// A failure on the gateway's side of an HTTP request.
#[derive(Debug, Clone, PartialEq, Eq)]
pub enum ServerError {
    HyperHttp(String),
    Communication(CommunicationError),
    Hyper(String),
    DiscordError(String),
    Database(DatabaseError),
}

/// What was wrong with an HTTP request.
#[derive(Debug, Clone, Copy, PartialEq, Eq, Structural)]
pub enum BadRequestError {
    UpgradeOnly,
    MissingWsKey,
    NoAccessCode,
}

/// A failure of the store behind the cache.
#[derive(Debug, Clone, PartialEq, Eq)]
pub enum DatabaseError {
    Sqlx(String),
    Deserializing(String),
    Serializing(String),
    Darkredis(String),
}

/// Why a message on a dashboard socket got no reply.
#[derive(Debug, Clone, PartialEq, Eq)]
pub enum WSMessageError {
    Tungstenite(String),
    Database(DatabaseError),
    Communication(CommunicationError),
    CorruptMessage(String),
    NotAuthorized,
    BadAuthorization,
    AlreadyAuthorized,
    ClosedGracefully,
    NoValidDiscordAuthToken,
    DiscordRequest(RequestError),
}

/// Close reason for a message that could not be decoded.
pub const CORRUPT_MESSAGE: &'static str = "Corrupt message recieved";

/// Close reason for a request made before identifying.
pub const NOT_AUTHORIZED: &'static str = "You failed to identify yourself first, access denied!";

/// Close reason for an identify with a token that nobody holds.
pub const BAD_AUTHORIZATION: &'static str = "You failed to identify yourself first, access denied!";

/// Close reason for a second identify.
pub const ALREADY_AUTHORIZED: &'static str = "You can not identify twice!";

/// Close reason for a failure of the socket itself.
pub const TUNGSTENITE: &'static str = "Unable to process message";

/// Close reason for a user without a stored provider token.
pub const NO_VALID_DISCORD_AUTH: &'static str =
    "No valid discord oauth token was found in storage for this user";

/// `prefix` followed by `detail`.
fn with_detail(prefix: &str, detail: &str) -> (s: String)
    ensures
        s@ == prefix@ + detail@,
{
    let mut s = String::from_str(prefix);
    s.append(detail);
    s
}

impl BadRequestError {
    /// The text shown for this failure.
    pub open spec fn text(&self) -> Seq<char> {
        match self {
            BadRequestError::UpgradeOnly => "this route only serves websocket upgrades"@,
            BadRequestError::MissingWsKey => "the Sec-WebSocket-Key header is missing"@,
            BadRequestError::NoAccessCode => "no authorization code was given"@,
        }
    }

    /// The text shown for this failure.
    pub fn describe(&self) -> (s: String)
        ensures
            s@ == self.text(),
    {
        match self {
            BadRequestError::UpgradeOnly => String::from_str(
                "this route only serves websocket upgrades",
            ),
            BadRequestError::MissingWsKey => String::from_str(
                "the Sec-WebSocket-Key header is missing",
            ),
            BadRequestError::NoAccessCode => String::from_str("no authorization code was given"),
        }
    }
}

impl DatabaseError {
    /// The text logged for this failure.
    pub open spec fn text(&self) -> Seq<char> {
        match self {
            DatabaseError::Sqlx(e) => "Database failure: "@ + e@,
            DatabaseError::Deserializing(e) => "Failed to deserialize: "@ + e@,
            DatabaseError::Serializing(e) => "Failed to seralize: "@ + e@,
            DatabaseError::Darkredis(e) => "Redis failure: "@ + e@,
        }
    }

    /// The text logged for this failure.
    pub fn describe(&self) -> (s: String)
        ensures
            s@ == self.text(),
    {
        match self {
            DatabaseError::Sqlx(e) => with_detail("Database failure: ", e.as_str()),
            DatabaseError::Deserializing(e) => with_detail("Failed to deserialize: ", e.as_str()),
            DatabaseError::Serializing(e) => with_detail("Failed to seralize: ", e.as_str()),
            DatabaseError::Darkredis(e) => with_detail("Redis failure: ", e.as_str()),
        }
    }
}

impl CommunicationError {
    /// The text logged for this failure.
    pub open spec fn text(&self) -> Seq<char> {
        match self {
            CommunicationError::Timeout => "GearBot did not respond in time"@,
            CommunicationError::Receiver(e) => "Error receiving reply from GearBot: "@ + e@,
            CommunicationError::DarkRedis(e) => "Error pushing the message to redis: "@ + e@,
            CommunicationError::WrongReplyType =>
                "Received wrong reply data type for the requested data"@,
            CommunicationError::DataFormat(e) => "JSON was in an unexpected form: "@ + e@,
        }
    }

    /// The text logged for this failure.
    pub fn describe(&self) -> (s: String)
        ensures
            s@ == self.text(),
    {
        match self {
            CommunicationError::Timeout => String::from_str("GearBot did not respond in time"),
            CommunicationError::Receiver(e) => with_detail(
                "Error receiving reply from GearBot: ",
                e.as_str(),
            ),
            CommunicationError::DarkRedis(e) => with_detail(
                "Error pushing the message to redis: ",
                e.as_str(),
            ),
            CommunicationError::WrongReplyType => String::from_str(
                "Received wrong reply data type for the requested data",
            ),
            CommunicationError::DataFormat(e) => with_detail(
                "JSON was in an unexpected form: ",
                e.as_str(),
            ),
        }
    }
}

impl ServerError {
    /// The text logged for this failure.
    pub open spec fn text(&self) -> Seq<char> {
        match self {
            ServerError::HyperHttp(e) => "Error assembling hyper response: "@ + e@,
            ServerError::Communication(e) => "Error communicating with GearBot: "@ + e.text(),
            ServerError::Hyper(e) => "Error making a request to the discord api: "@ + e@,
            ServerError::Database(e) => "Database error occured: "@ + e.text(),
            ServerError::DiscordError(e) => "Error making a request to discord: "@ + e@,
        }
    }

    /// The text logged for this failure.
    pub fn describe(&self) -> (s: String)
        ensures
            s@ == self.text(),
    {
        match self {
            ServerError::HyperHttp(e) => with_detail(
                "Error assembling hyper response: ",
                e.as_str(),
            ),
            ServerError::Communication(e) => {
                let inner = e.describe();
                with_detail("Error communicating with GearBot: ", inner.as_str())
            },
            ServerError::Hyper(e) => with_detail(
                "Error making a request to the discord api: ",
                e.as_str(),
            ),
            ServerError::Database(e) => {
                let inner = e.describe();
                with_detail("Database error occured: ", inner.as_str())
            },
            ServerError::DiscordError(e) => with_detail(
                "Error making a request to discord: ",
                e.as_str(),
            ),
        }
    }
}

impl RequestError {
    /// The HTTP status that answers a request which failed this way.
    pub open spec fn status(&self) -> u16 {
        match self {
            RequestError::Server(_) => 500,
            RequestError::BadRequest(_) => 400,
            RequestError::NotFound => 404,
            RequestError::Forbidden => 403,
        }
    }

    /// The HTTP status that answers a request which failed this way.
    pub fn get_status(&self) -> (code: u16)
        ensures
            code == self.status(),
    {
        match self {
            RequestError::Server(_) => 500,
            RequestError::BadRequest(_) => 400,
            RequestError::NotFound => 404,
            RequestError::Forbidden => 403,
        }
    }

    /// The body sent to the client. A failure on the gateway's side shows
    /// no detail.
    pub open spec fn text(&self) -> Seq<char> {
        match self {
            RequestError::Server(_) => "Internal server error!"@,
            RequestError::BadRequest(e) => "Bad request! "@ + e.text(),
            RequestError::NotFound => "Unknown route"@,
            RequestError::Forbidden => "Access denied"@,
        }
    }

    /// The body sent to the client.
    pub fn describe(&self) -> (s: String)
        ensures
            s@ == self.text(),
    {
        match self {
            RequestError::Server(_) => String::from_str("Internal server error!"),
            RequestError::BadRequest(e) => {
                let inner = e.describe();
                with_detail("Bad request! ", inner.as_str())
            },
            RequestError::NotFound => String::from_str("Unknown route"),
            RequestError::Forbidden => String::from_str("Access denied"),
        }
    }
}

impl StartupError {
    /// The text logged for this failure.
    pub open spec fn text(&self) -> Seq<char> {
        match self {
            StartupError::NoConfig => "No config found"@,
            StartupError::InvalidConfig => "Config file is not valid"@,
            StartupError::NoLoggingSpec => "Unable to load log spec file"@,
            StartupError::DarkRedis(e) => "Error creating the redis pool: "@ + e@,
        }
    }

    /// The text logged for this failure.
    pub fn describe(&self) -> (s: String)
        ensures
            s@ == self.text(),
    {
        match self {
            StartupError::NoConfig => String::from_str("No config found"),
            StartupError::InvalidConfig => String::from_str("Config file is not valid"),
            StartupError::NoLoggingSpec => String::from_str("Unable to load log spec file"),
            StartupError::DarkRedis(e) => with_detail(
                "Error creating the redis pool: ",
                e.as_str(),
            ),
        }
    }
}

impl WSMessageError {
    /// Whether this failure ends the session. Every variant is listed: a
    /// failure of the socket or of the protocol is fatal, one met while
    /// serving an identified user is not.
    pub open spec fn fatal(&self) -> bool {
        match self {
            WSMessageError::Tungstenite(_) => true,
            WSMessageError::CorruptMessage(_) => true,
            WSMessageError::NotAuthorized => true,
            WSMessageError::AlreadyAuthorized => true,
            WSMessageError::BadAuthorization => true,
            WSMessageError::NoValidDiscordAuthToken => true,
            WSMessageError::Database(_) => false,
            WSMessageError::Communication(_) => false,
            WSMessageError::ClosedGracefully => false,
            WSMessageError::DiscordRequest(_) => false,
        }
    }

    /// The reason given to the client when a fatal failure closes the
    /// socket. It never holds the failure's detail.
    pub open spec fn close_reason(&self) -> Seq<char>
        recommends
            self.fatal(),
    {
        match self {
            WSMessageError::CorruptMessage(_) => CORRUPT_MESSAGE@,
            WSMessageError::NotAuthorized => NOT_AUTHORIZED@,
            WSMessageError::BadAuthorization => BAD_AUTHORIZATION@,
            WSMessageError::AlreadyAuthorized => ALREADY_AUTHORIZED@,
            WSMessageError::NoValidDiscordAuthToken => NO_VALID_DISCORD_AUTH@,
            _ => TUNGSTENITE@,
        }
    }

    /// Whether this failure ends the session.
    pub fn closes_socket(&self) -> (closes: bool)
        ensures
            closes == self.fatal(),
    {
        match self {
            WSMessageError::Tungstenite(_) => true,
            WSMessageError::CorruptMessage(_) => true,
            WSMessageError::NotAuthorized => true,
            WSMessageError::AlreadyAuthorized => true,
            WSMessageError::BadAuthorization => true,
            WSMessageError::NoValidDiscordAuthToken => true,
            WSMessageError::Database(_) => false,
            WSMessageError::Communication(_) => false,
            WSMessageError::ClosedGracefully => false,
            WSMessageError::DiscordRequest(_) => false,
        }
    }

    /// The reason given to the client when this failure closes the socket.
    pub fn get_close_message(&self) -> (reason: &'static str)
        requires
            self.fatal(),
        ensures
            reason@ == self.close_reason(),
    {
        match self {
            WSMessageError::CorruptMessage(_) => CORRUPT_MESSAGE,
            WSMessageError::NotAuthorized => NOT_AUTHORIZED,
            WSMessageError::BadAuthorization => BAD_AUTHORIZATION,
            WSMessageError::AlreadyAuthorized => ALREADY_AUTHORIZED,
            WSMessageError::NoValidDiscordAuthToken => NO_VALID_DISCORD_AUTH,
            _ => TUNGSTENITE,
        }
    }

    /// The text logged for this failure.
    pub open spec fn text(&self) -> Seq<char> {
        match self {
            WSMessageError::Tungstenite(e) => "Tunstenite failure: "@ + e@,
            WSMessageError::Database(e) => "Failed to fetch database information: "@ + e.text(),
            WSMessageError::Communication(e) => "Failed to communicate with GearBot: "@
                + e.text(),
            WSMessageError::CorruptMessage(e) => "Corrupt message recieved: "@ + e@,
            WSMessageError::NotAuthorized => "Someone didn't identify themselves"@,
            WSMessageError::BadAuthorization =>
                "Someone gave us an invalid token to try and identify"@,
            WSMessageError::AlreadyAuthorized => "Someone double identified"@,
            WSMessageError::ClosedGracefully => "Connection closed by client"@,
            WSMessageError::NoValidDiscordAuthToken => "No valid discord oauth2 token found"@,
            WSMessageError::DiscordRequest(e) =>
                "Failed to fetch information from the discord api: "@ + e.text(),
        }
    }

    /// The text logged for this failure.
    pub fn describe(&self) -> (s: String)
        ensures
            s@ == self.text(),
    {
        match self {
            WSMessageError::Tungstenite(e) => with_detail("Tunstenite failure: ", e.as_str()),
            WSMessageError::Database(e) => {
                let inner = e.describe();
                with_detail("Failed to fetch database information: ", inner.as_str())
            },
            WSMessageError::Communication(e) => {
                let inner = e.describe();
                with_detail("Failed to communicate with GearBot: ", inner.as_str())
            },
            WSMessageError::CorruptMessage(e) => with_detail(
                "Corrupt message recieved: ",
                e.as_str(),
            ),
            WSMessageError::NotAuthorized => String::from_str(
                "Someone didn't identify themselves",
            ),
            WSMessageError::BadAuthorization => String::from_str(
                "Someone gave us an invalid token to try and identify",
            ),
            WSMessageError::AlreadyAuthorized => String::from_str("Someone double identified"),
            WSMessageError::ClosedGracefully => String::from_str("Connection closed by client"),
            WSMessageError::NoValidDiscordAuthToken => String::from_str(
                "No valid discord oauth2 token found",
            ),
            WSMessageError::DiscordRequest(e) => {
                let inner = e.describe();
                with_detail("Failed to fetch information from the discord api: ", inner.as_str())
            },
        }
    }
}

impl From<CommunicationError> for RequestError {
    fn from(e: CommunicationError) -> (r: RequestError) {
        RequestError::Server(ServerError::Communication(e))
    }
}

impl FromSpecImpl<CommunicationError> for RequestError {
    open spec fn obeys_from_spec() -> bool {
        true
    }

    open spec fn from_spec(e: CommunicationError) -> RequestError {
        RequestError::Server(ServerError::Communication(e))
    }
}

impl From<BadRequestError> for RequestError {
    fn from(e: BadRequestError) -> (r: RequestError) {
        RequestError::BadRequest(e)
    }
}

impl FromSpecImpl<BadRequestError> for RequestError {
    open spec fn obeys_from_spec() -> bool {
        true
    }

    open spec fn from_spec(e: BadRequestError) -> RequestError {
        RequestError::BadRequest(e)
    }
}

impl From<DatabaseError> for RequestError {
    fn from(e: DatabaseError) -> (r: RequestError) {
        RequestError::Server(ServerError::Database(e))
    }
}

impl FromSpecImpl<DatabaseError> for RequestError {
    open spec fn obeys_from_spec() -> bool {
        true
    }

    open spec fn from_spec(e: DatabaseError) -> RequestError {
        RequestError::Server(ServerError::Database(e))
    }
}

impl From<DatabaseError> for WSMessageError {
    fn from(e: DatabaseError) -> (r: WSMessageError) {
        WSMessageError::Database(e)
    }
}

impl FromSpecImpl<DatabaseError> for WSMessageError {
    open spec fn obeys_from_spec() -> bool {
        true
    }

    open spec fn from_spec(e: DatabaseError) -> WSMessageError {
        WSMessageError::Database(e)
    }
}

impl From<CommunicationError> for WSMessageError {
    fn from(e: CommunicationError) -> (r: WSMessageError) {
        WSMessageError::Communication(e)
    }
}

impl FromSpecImpl<CommunicationError> for WSMessageError {
    open spec fn obeys_from_spec() -> bool {
        true
    }

    open spec fn from_spec(e: CommunicationError) -> WSMessageError {
        WSMessageError::Communication(e)
    }
}

impl From<RequestError> for WSMessageError {
    fn from(e: RequestError) -> (r: WSMessageError) {
        WSMessageError::DiscordRequest(e)
    }
}

impl FromSpecImpl<RequestError> for WSMessageError {
    open spec fn obeys_from_spec() -> bool {
        true
    }

    open spec fn from_spec(e: RequestError) -> WSMessageError {
        WSMessageError::DiscordRequest(e)
    }
}

/// The reason that closes a socket is one of six fixed texts, whatever the
/// failure carries: no detail of a failure goes over the wire.
pub proof fn law_close_reason_is_fixed(e: WSMessageError)
    requires
        e.fatal(),
    ensures
        e.close_reason() == CORRUPT_MESSAGE@ || e.close_reason() == NOT_AUTHORIZED@
            || e.close_reason() == BAD_AUTHORIZATION@ || e.close_reason() == ALREADY_AUTHORIZED@
            || e.close_reason() == TUNGSTENITE@ || e.close_reason() == NO_VALID_DISCORD_AUTH@,
{
}

} // verus!
