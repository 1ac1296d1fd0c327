//! The session protocol of one dashboard socket.
//!
//! A session starts unidentified, becomes identified once, and stays so.
//! For each frame the session says what is to be done: run a handler, send
//! a reply, pass over a failure, or close. The outcome of a handler then
//! becomes a reply, a failure that is passed over, or the end of the
//! session with a close frame.

use vstd::prelude::*;
use vstd::string::*;
use crate::error::{WSMessageError, ALREADY_AUTHORIZED, NOT_AUTHORIZED};
use crate::redis::UserInfo;
use crate::routes::ws::models::{WSOutbound, WSRequest};

verus! {

/// How far a session has identified itself.
#[derive(Debug, Clone, Copy, PartialEq, Eq, Structural)]
pub enum AuthState {
    Unauthenticated,
    /// Identified as the user with this identifier.
    Authenticated(u64),
}

/// What the socket brought.
#[derive(Debug, PartialEq, Eq)]
pub enum Frame {
    /// A message, as it decoded against the protocol, or the decoder's
    /// complaint.
    Message(Result<WSRequest, String>),
    /// The socket failed.
    Failed(String),
    /// The dashboard is gone.
    Ended,
}

/// The work that a message asks for.
#[derive(Debug, Clone, PartialEq, Eq)]
pub enum Task {
    /// Find out whose session token this is.
    Identify { token: String },
    /// List the guilds of this user.
    GuildList { user_id: u64 },
}

/// The outcome of the work that a message asked for.
#[derive(Debug, PartialEq, Eq)]
pub enum Outcome {
    Identified(Result<(u64, UserInfo), WSMessageError>),
    Listed(Result<WSOutbound, WSMessageError>),
}

/// The status that a close frame carries.
#[derive(Debug, Clone, Copy, PartialEq, Eq, Structural)]
pub enum CloseCode {
    /// The session is over as intended.
    Normal,
    /// The gateway ends the session over a failure.
    Error,
}

/// The last frame of a session.
#[derive(Debug, Clone, PartialEq, Eq)]
pub struct CloseFrame {
    pub code: CloseCode,
    pub reason: String,
}

/// What follows the handling of one frame.
#[derive(Debug, Clone, PartialEq, Eq)]
pub enum Reaction {
    /// Send this to the dashboard and go on.
    Reply(WSOutbound),
    /// Send nothing and go on: the failure is logged, the dashboard may ask
    /// again.
    Continue,
    /// Send this frame and end the session.
    Close(CloseFrame),
}

/// What a frame leads to at once.
#[derive(Debug, Clone, PartialEq, Eq)]
pub enum Step {
    /// Do this work and come back with its outcome.
    Run(Task),
    /// No work is to be done.
    React(Reaction),
}

/// The mathematical value of a [`Reaction`].
pub enum ReactionView {
    Reply(WSOutbound),
    Continue,
    Close(CloseCode, Seq<char>),
}

/// The mathematical value of a [`Step`].
pub enum StepView {
    Run(Task),
    React(ReactionView),
}

impl View for CloseFrame {
    type V = (CloseCode, Seq<char>);

    open spec fn view(&self) -> (CloseCode, Seq<char>) {
        (self.code, self.reason@)
    }
}

impl View for Reaction {
    type V = ReactionView;

    open spec fn view(&self) -> ReactionView {
        match self {
            Reaction::Reply(reply) => ReactionView::Reply(*reply),
            Reaction::Continue => ReactionView::Continue,
            Reaction::Close(frame) => ReactionView::Close(frame.code, frame.reason@),
        }
    }
}

impl View for Step {
    type V = StepView;

    open spec fn view(&self) -> StepView {
        match self {
            Step::Run(task) => StepView::Run(*task),
            Step::React(reaction) => StepView::React(reaction@),
        }
    }
}

/// The reason of the close frame that ends a session as intended.
pub const SESSION_FINISHED: &'static str = "Session finished";

/// What a message asks for in state `auth`: a message that did not decode
/// is corrupt; before identifying only an identify is served; after it, an
/// identify is refused and a guild list is made for the identified user.
pub open spec fn dispatched(auth: AuthState, decoded: Result<WSRequest, String>) -> Result<
    Task,
    WSMessageError,
> {
    match decoded {
        Err(detail) => Err(WSMessageError::CorruptMessage(detail)),
        Ok(request) => match auth {
            AuthState::Unauthenticated => match request {
                WSRequest::Identify { token } => Ok(Task::Identify { token }),
                WSRequest::GuildList => Err(WSMessageError::NotAuthorized),
            },
            AuthState::Authenticated(user_id) => match request {
                WSRequest::Identify { .. } => Err(WSMessageError::AlreadyAuthorized),
                WSRequest::GuildList => Ok(Task::GuildList { user_id }),
            },
        },
    }
}

/// What follows an outcome: a reply is sent, a fatal failure closes the
/// session with its fixed reason, any other failure is passed over.
pub open spec fn reaction_to(result: Result<WSOutbound, WSMessageError>) -> ReactionView {
    match result {
        Ok(reply) => ReactionView::Reply(reply),
        Err(e) => if e.fatal() {
            ReactionView::Close(CloseCode::Error, e.close_reason())
        } else {
            ReactionView::Continue
        },
    }
}

/// What a frame leads to in state `auth`: a message to the work it asks
/// for, or to the reaction to its refusal; a failure of the socket to a
/// close frame that says so; the end of the stream to the close frame of a
/// session that is over as intended.
pub open spec fn received(auth: AuthState, frame: Frame) -> StepView {
    match frame {
        Frame::Message(decoded) => match dispatched(auth, decoded) {
            Ok(task) => StepView::Run(task),
            Err(e) => StepView::React(reaction_to(Err(e))),
        },
        Frame::Failed(detail) => StepView::React(
            reaction_to(Err(WSMessageError::Tungstenite(detail))),
        ),
        Frame::Ended => StepView::React(ReactionView::Close(CloseCode::Normal, SESSION_FINISHED@)),
    }
}

/// The state after an identify came to `outcome` in state `auth`: a session
/// that is unidentified takes on the user that was found, any other stays
/// as it is.
pub open spec fn identify_step(
    auth: AuthState,
    outcome: Result<(u64, UserInfo), WSMessageError>,
) -> AuthState {
    match auth {
        AuthState::Unauthenticated => match outcome {
            Ok((user_id, _)) => AuthState::Authenticated(user_id),
            Err(_) => AuthState::Unauthenticated,
        },
        AuthState::Authenticated(_) => auth,
    }
}

/// What an identify that came to `outcome` in state `auth` is answered
/// with: a session that is unidentified is welcomed where its user was
/// found and told the failure where not; any other is refused.
pub open spec fn identify_result(
    auth: AuthState,
    outcome: Result<(u64, UserInfo), WSMessageError>,
) -> Result<WSOutbound, WSMessageError> {
    match auth {
        AuthState::Unauthenticated => match outcome {
            Ok(_) => Ok(WSOutbound::Welcome),
            Err(e) => Err(e),
        },
        AuthState::Authenticated(_) => Err(WSMessageError::AlreadyAuthorized),
    }
}

/// Whether an identify that came to `outcome` in state `auth` is accepted.
pub open spec fn accepted(
    auth: AuthState,
    outcome: Result<(u64, UserInfo), WSMessageError>,
) -> bool {
    auth is Unauthenticated && outcome is Ok
}

/// The state after the work of a message came to `outcome` in state
/// `auth`. Only an identify changes it.
pub open spec fn settled(auth: AuthState, outcome: Outcome) -> AuthState {
    match outcome {
        Outcome::Identified(found) => identify_step(auth, found),
        Outcome::Listed(_) => auth,
    }
}

/// The state after a run of outcomes, from `auth` on.
pub open spec fn run(auth: AuthState, outcomes: Seq<Outcome>) -> AuthState
    decreases outcomes.len(),
{
    if outcomes.len() == 0 {
        auth
    } else {
        settled(run(auth, outcomes.drop_last()), outcomes.last())
    }
}

/// How many identifies of such a run are accepted.
pub open spec fn accepted_in_run(auth: AuthState, outcomes: Seq<Outcome>) -> nat
    decreases outcomes.len(),
{
    if outcomes.len() == 0 {
        0
    } else {
        let before = accepted_in_run(auth, outcomes.drop_last());
        match outcomes.last() {
            Outcome::Identified(found) => if accepted(run(auth, outcomes.drop_last()), found) {
                before + 1
            } else {
                before
            },
            Outcome::Listed(_) => before,
        }
    }
}

impl CloseCode {
    /// The number that stands for this status on the wire.
    pub open spec fn number(self) -> u16 {
        match self {
            CloseCode::Normal => 1000,
            CloseCode::Error => 1011,
        }
    }

    /// The number that stands for this status on the wire.
    pub fn code(self) -> (n: u16)
        ensures
            n == self.number(),
    {
        match self {
            CloseCode::Normal => 1000,
            CloseCode::Error => 1011,
        }
    }
}

/// The close frame for the way the message loop ended: as intended, or over
/// a fatal failure, whose fixed reason it then carries.
pub fn close_frame(end: Result<(), WSMessageError>) -> (frame: CloseFrame)
    requires
        end matches Err(e) ==> e.fatal(),
    ensures
        frame@ == match end {
            Ok(()) => (CloseCode::Normal, SESSION_FINISHED@),
            Err(e) => (CloseCode::Error, e.close_reason()),
        },
{
    match end {
        Ok(()) => CloseFrame {
            code: CloseCode::Normal,
            reason: String::from_str(SESSION_FINISHED),
        },
        Err(e) => CloseFrame {
            code: CloseCode::Error,
            reason: String::from_str(e.get_close_message()),
        },
    }
}

/// Decides what follows the handling of one message.
pub fn react(result: Result<WSOutbound, WSMessageError>) -> (reaction: Reaction)
    ensures
        reaction@ == reaction_to(result),
{
    match result {
        Ok(reply) => Reaction::Reply(reply),
        Err(e) => if e.closes_socket() {
            Reaction::Close(close_frame(Err(e)))
        } else {
            Reaction::Continue
        },
    }
}

/// One dashboard connection. Its value is its [`AuthState`].
#[derive(Debug)]
pub struct Session {
    auth: AuthState,
}

impl View for Session {
    type V = AuthState;

    closed spec fn view(&self) -> AuthState {
        self.auth
    }
}

impl Session {
    /// A session that has not identified itself.
    pub fn new() -> (session: Session)
        ensures
            session@ == AuthState::Unauthenticated,
    {
        Session { auth: AuthState::Unauthenticated }
    }

    /// A session for a connection that came with the session token of
    /// `user` in its cookie, if it came with one.
    pub fn resume(user: Option<u64>) -> (session: Session)
        ensures
            session@ == match user {
                Some(user_id) => AuthState::Authenticated(user_id),
                None => AuthState::Unauthenticated,
            },
    {
        match user {
            Some(user_id) => Session { auth: AuthState::Authenticated(user_id) },
            None => Session { auth: AuthState::Unauthenticated },
        }
    }

    /// How far the session has identified itself.
    pub fn state(&self) -> (auth: AuthState)
        ensures
            auth == self@,
    {
        self.auth
    }

    /// Says what a message asks for. `decoded` is the message as it decoded
    /// against the protocol, or the decoder's complaint.
    pub fn dispatch(&self, decoded: Result<WSRequest, String>) -> (task: Result<
        Task,
        WSMessageError,
    >)
        ensures
            task == dispatched(self@, decoded),
    {
        match decoded {
            Err(detail) => Err(WSMessageError::CorruptMessage(detail)),
            Ok(request) => match self.auth {
                AuthState::Unauthenticated => match request {
                    WSRequest::Identify { token } => Ok(Task::Identify { token }),
                    WSRequest::GuildList => Err(WSMessageError::NotAuthorized),
                },
                AuthState::Authenticated(user_id) => match request {
                    WSRequest::Identify { .. } => Err(WSMessageError::AlreadyAuthorized),
                    WSRequest::GuildList => Ok(Task::GuildList { user_id }),
                },
            },
        }
    }

    /// Says what a frame leads to: work to be done, or a reaction at once.
    pub fn receive(&self, frame: Frame) -> (step: Step)
        ensures
            step@ == received(self@, frame),
    {
        match frame {
            Frame::Message(decoded) => match self.dispatch(decoded) {
                Ok(task) => Step::Run(task),
                Err(e) => Step::React(react(Err(e))),
            },
            Frame::Failed(detail) => Step::React(react(Err(WSMessageError::Tungstenite(detail)))),
            Frame::Ended => Step::React(Reaction::Close(close_frame(Ok(())))),
        }
    }

    /// Takes in the outcome of an identify. A session that is unidentified
    /// and whose user was found becomes that user's and is welcomed. A
    /// failure is handed on and changes nothing. A session that is
    /// identified already stays what it is and refuses.
    pub fn identified(&mut self, outcome: Result<(u64, UserInfo), WSMessageError>) -> (r: Result<
        WSOutbound,
        WSMessageError,
    >)
        ensures
            final(self)@ == identify_step(old(self)@, outcome),
            r == identify_result(old(self)@, outcome),
            r is Ok <==> accepted(old(self)@, outcome),
    {
        match self.auth {
            AuthState::Unauthenticated => match outcome {
                Ok((user_id, _)) => {
                    self.auth = AuthState::Authenticated(user_id);
                    Ok(WSOutbound::Welcome)
                },
                Err(e) => Err(e),
            },
            AuthState::Authenticated(_) => Err(WSMessageError::AlreadyAuthorized),
        }
    }

    /// Takes in the outcome of the work that a message asked for, and says
    /// what follows.
    pub fn settle(&mut self, outcome: Outcome) -> (reaction: Reaction)
        ensures
            final(self)@ == settled(old(self)@, outcome),
            reaction@ == reaction_to(
                match outcome {
                    Outcome::Identified(found) => identify_result(old(self)@, found),
                    Outcome::Listed(result) => result,
                },
            ),
    {
        match outcome {
            Outcome::Identified(found) => {
                let result = self.identified(found);
                react(result)
            },
            Outcome::Listed(result) => react(result),
        }
    }
}

/// A session that is identified stays identified as the same user, whatever
/// follows, and accepts no identify.
pub proof fn law_identified_stays(auth: AuthState, outcomes: Seq<Outcome>)
    requires
        auth is Authenticated,
    ensures
        run(auth, outcomes) == auth,
        accepted_in_run(auth, outcomes) == 0,
    decreases outcomes.len(),
{
    if outcomes.len() > 0 {
        law_identified_stays(auth, outcomes.drop_last());
    }
}

/// Of the identifies of a session at most one is accepted, and a session
/// never goes back to being unidentified: once a run has reached an
/// identified state, it ends in that state.
pub proof fn law_identify_once(auth: AuthState, outcomes: Seq<Outcome>)
    ensures
        accepted_in_run(auth, outcomes) <= 1,
        accepted_in_run(auth, outcomes) == 1 ==> run(auth, outcomes) is Authenticated,
        forall|n: int|
            0 <= n <= outcomes.len() && #[trigger] run(auth, outcomes.take(n)) is Authenticated
                ==> run(auth, outcomes) == run(auth, outcomes.take(n)),
    decreases outcomes.len(),
{
    if outcomes.len() == 0 {
        assert forall|n: int|
            0 <= n <= outcomes.len() && #[trigger] run(auth, outcomes.take(n))
                is Authenticated implies run(auth, outcomes) == run(auth, outcomes.take(n)) by {
            assert(outcomes.take(n) =~= outcomes);
        }
    } else {
        let before = outcomes.drop_last();
        law_identify_once(auth, before);
        if run(auth, before) is Authenticated {
            assert(before.take(before.len() as int) =~= before);
        }
        assert forall|n: int|
            0 <= n <= outcomes.len() && #[trigger] run(auth, outcomes.take(n))
                is Authenticated implies run(auth, outcomes) == run(auth, outcomes.take(n)) by {
            if n == outcomes.len() {
                assert(outcomes.take(n) =~= outcomes);
            } else {
                assert(outcomes.take(n) =~= before.take(n));
                assert(before.take(before.len() as int) =~= before);
            }
        }
    }
}

/// Before identifying, whatever message is not an identify is refused as
/// not authorized, and the refusal closes the connection with the reason
/// that is fixed for it.
pub proof fn law_unidentified_is_refused(request: WSRequest)
    requires
        !(request is Identify),
    ensures
        dispatched(AuthState::Unauthenticated, Ok(request)) == Err::<Task, WSMessageError>(
            WSMessageError::NotAuthorized,
        ),
        received(AuthState::Unauthenticated, Frame::Message(Ok(request))) == StepView::React(
            ReactionView::Close(CloseCode::Error, NOT_AUTHORIZED@),
        ),
{
}

/// After identifying, a second identify is refused as already authorized,
/// and the refusal closes the connection with the reason that is fixed for
/// it.
pub proof fn law_second_identify_is_refused(user_id: u64, token: String)
    ensures
        dispatched(AuthState::Authenticated(user_id), Ok(WSRequest::Identify { token })) == Err::<
            Task,
            WSMessageError,
        >(WSMessageError::AlreadyAuthorized),
        received(
            AuthState::Authenticated(user_id),
            Frame::Message(Ok(WSRequest::Identify { token })),
        ) == StepView::React(ReactionView::Close(CloseCode::Error, ALREADY_AUTHORIZED@)),
{
}

/// Only a session that is identified gets a guild list made, and only for
/// the user it is identified as.
pub proof fn law_guild_list_needs_identity(
    auth: AuthState,
    decoded: Result<WSRequest, String>,
    user_id: u64,
)
    requires
        dispatched(auth, decoded) == Ok::<Task, WSMessageError>(Task::GuildList { user_id }),
    ensures
        auth == AuthState::Authenticated(user_id),
{
}

} // verus!
