use gearbot_api::error::{CommunicationError, DatabaseError, WSMessageError};
use gearbot_api::redis::UserInfo;
use gearbot_api::routes::ws::models::{UserGuildList, WSOutbound, WSRequest};
use gearbot_api::routes::ws::session::{
    close_frame, react, AuthState, CloseCode, CloseFrame, Frame, Outcome, Reaction, Session,
    Step, Task, SESSION_FINISHED,
};

fn someone() -> UserInfo {
    UserInfo {
        name: "Someone".to_string(),
        discriminator: "1234".to_string(),
        avatar: Some("abc".to_string()),
        bot_user: false,
        system_user: false,
        public_flags: None,
    }
}

fn identify_message(token: &str) -> Result<WSRequest, String> {
    Ok(WSRequest::Identify { token: token.to_string() })
}

#[test]
fn session_starts_unauthenticated() {
    assert_eq!(Session::new().state(), AuthState::Unauthenticated);
    assert_eq!(Session::resume(None).state(), AuthState::Unauthenticated);
}

#[test]
fn session_with_cookie_user_starts_authenticated() {
    assert_eq!(Session::resume(Some(7)).state(), AuthState::Authenticated(7));
}

#[test]
fn corrupt_message_is_rejected_in_every_state() {
    let fresh = Session::new();
    let known = Session::resume(Some(7));
    assert_eq!(
        fresh.dispatch(Err("missing field `type`".to_string())),
        Err(WSMessageError::CorruptMessage("missing field `type`".to_string()))
    );
    assert_eq!(
        known.dispatch(Err("unknown variant".to_string())),
        Err(WSMessageError::CorruptMessage("unknown variant".to_string()))
    );
}

#[test]
fn unauthenticated_identify_is_dispatched() {
    let session = Session::new();
    assert_eq!(
        session.dispatch(identify_message("abc")),
        Ok(Task::Identify { token: "abc".to_string() })
    );
}

#[test]
fn unauthenticated_guild_list_is_not_authorized() {
    let session = Session::new();
    assert_eq!(
        session.dispatch(Ok(WSRequest::GuildList)),
        Err(WSMessageError::NotAuthorized)
    );
    assert_eq!(session.state(), AuthState::Unauthenticated);
}

#[test]
fn authenticated_guild_list_is_dispatched_for_the_user() {
    let session = Session::resume(Some(42));
    assert_eq!(
        session.dispatch(Ok(WSRequest::GuildList)),
        Ok(Task::GuildList { user_id: 42 })
    );
}

#[test]
fn authenticated_identify_is_already_authorized() {
    let session = Session::resume(Some(42));
    assert_eq!(
        session.dispatch(identify_message("abc")),
        Err(WSMessageError::AlreadyAuthorized)
    );
    assert_eq!(session.state(), AuthState::Authenticated(42));
}

#[test]
fn successful_identify_authenticates_and_welcomes() {
    let mut session = Session::new();
    assert_eq!(session.identified(Ok((7, someone()))), Ok(WSOutbound::Welcome));
    assert_eq!(session.state(), AuthState::Authenticated(7));
}

#[test]
fn failed_identify_leaves_the_session_unauthenticated() {
    let mut session = Session::new();
    assert_eq!(
        session.identified(Err(WSMessageError::BadAuthorization)),
        Err(WSMessageError::BadAuthorization)
    );
    assert_eq!(session.state(), AuthState::Unauthenticated);
    assert_eq!(
        session.identified(Err(WSMessageError::Communication(CommunicationError::Timeout))),
        Err(WSMessageError::Communication(CommunicationError::Timeout))
    );
    assert_eq!(session.state(), AuthState::Unauthenticated);
}

#[test]
fn identify_is_accepted_at_most_once() {
    let mut session = Session::new();
    assert_eq!(session.identified(Ok((7, someone()))), Ok(WSOutbound::Welcome));
    assert_eq!(
        session.identified(Ok((8, someone()))),
        Err(WSMessageError::AlreadyAuthorized)
    );
    assert_eq!(session.state(), AuthState::Authenticated(7));
    assert_eq!(
        session.identified(Err(WSMessageError::BadAuthorization)),
        Err(WSMessageError::AlreadyAuthorized)
    );
    assert_eq!(session.state(), AuthState::Authenticated(7));
}

#[test]
fn reply_is_sent_and_the_session_goes_on() {
    assert_eq!(react(Ok(WSOutbound::Welcome)), Reaction::Reply(WSOutbound::Welcome));
    let list = WSOutbound::GuildList(UserGuildList {
        gearbot_servers: vec![],
        available_servers: vec![],
    });
    assert_eq!(react(Ok(list.clone())), Reaction::Reply(list));
}

#[test]
fn recoverable_failure_sends_nothing() {
    assert_eq!(
        react(Err(WSMessageError::Communication(CommunicationError::Timeout))),
        Reaction::Continue
    );
    assert_eq!(
        react(Err(WSMessageError::Database(DatabaseError::Darkredis("io".to_string())))),
        Reaction::Continue
    );
    assert_eq!(react(Err(WSMessageError::ClosedGracefully)), Reaction::Continue);
}

#[test]
fn fatal_failure_closes_with_its_reason() {
    assert_eq!(
        react(Err(WSMessageError::AlreadyAuthorized)),
        Reaction::Close(CloseFrame {
            code: CloseCode::Error,
            reason: "You can not identify twice!".to_string(),
        })
    );
    assert_eq!(
        react(Err(WSMessageError::CorruptMessage("expected value".to_string()))),
        Reaction::Close(CloseFrame {
            code: CloseCode::Error,
            reason: "Corrupt message recieved".to_string(),
        })
    );
    assert_eq!(
        react(Err(WSMessageError::Tungstenite("connection reset".to_string()))),
        Reaction::Close(CloseFrame {
            code: CloseCode::Error,
            reason: "Unable to process message".to_string(),
        })
    );
    assert_eq!(
        react(Err(WSMessageError::NoValidDiscordAuthToken)),
        Reaction::Close(CloseFrame {
            code: CloseCode::Error,
            reason: "No valid discord oauth token was found in storage for this user".to_string(),
        })
    );
    assert_eq!(
        react(Err(WSMessageError::BadAuthorization)),
        Reaction::Close(CloseFrame {
            code: CloseCode::Error,
            reason: "You failed to identify yourself first, access denied!".to_string(),
        })
    );
}

#[test]
fn clean_end_closes_normally() {
    assert_eq!(SESSION_FINISHED, "Session finished");
    assert_eq!(
        close_frame(Ok(())),
        CloseFrame { code: CloseCode::Normal, reason: "Session finished".to_string() }
    );
}

#[test]
fn fatal_end_closes_with_an_error_frame() {
    assert_eq!(
        close_frame(Err(WSMessageError::NotAuthorized)),
        CloseFrame {
            code: CloseCode::Error,
            reason: "You failed to identify yourself first, access denied!".to_string(),
        }
    );
}

#[test]
fn close_codes_have_their_numbers() {
    assert_eq!(CloseCode::Normal.code(), 1000);
    assert_eq!(CloseCode::Error.code(), 1011);
}

#[test]
fn scenario_guild_list_before_identify_closes_the_connection() {
    let session = Session::new();
    let outcome = match session.dispatch(Ok(WSRequest::GuildList)) {
        Ok(_) => panic!("an unidentified session was served"),
        Err(e) => Err(e),
    };
    match react(outcome) {
        Reaction::Close(frame) => {
            assert_eq!(frame.code, CloseCode::Error);
            assert_eq!(
                frame.reason,
                "You failed to identify yourself first, access denied!"
            );
        }
        other => panic!("the connection stayed open: {:?}", other),
    }
}

#[test]
fn scenario_identify_then_guild_list_is_accepted() {
    let mut session = Session::new();
    let task = session.dispatch(identify_message("abc"));
    assert_eq!(task, Ok(Task::Identify { token: "abc".to_string() }));
    let welcomed = session.identified(Ok((7, someone())));
    assert_eq!(react(welcomed), Reaction::Reply(WSOutbound::Welcome));
    assert_eq!(
        session.dispatch(Ok(WSRequest::GuildList)),
        Ok(Task::GuildList { user_id: 7 })
    );
}

#[test]
fn scenario_second_identify_closes_the_connection() {
    let mut session = Session::new();
    assert_eq!(session.identified(Ok((7, someone()))), Ok(WSOutbound::Welcome));
    let outcome = match session.dispatch(identify_message("abc")) {
        Ok(_) => panic!("a second identify was served"),
        Err(e) => Err(e),
    };
    assert_eq!(
        react(outcome),
        Reaction::Close(CloseFrame {
            code: CloseCode::Error,
            reason: "You can not identify twice!".to_string(),
        })
    );
    assert_eq!(session.state(), AuthState::Authenticated(7));
}

#[test]
fn message_frame_leads_to_its_task() {
    let session = Session::new();
    assert_eq!(
        session.receive(Frame::Message(identify_message("abc"))),
        Step::Run(Task::Identify { token: "abc".to_string() })
    );
    let session = Session::resume(Some(9));
    assert_eq!(
        session.receive(Frame::Message(Ok(WSRequest::GuildList))),
        Step::Run(Task::GuildList { user_id: 9 })
    );
}

#[test]
fn refused_message_frame_closes_at_once() {
    let session = Session::new();
    assert_eq!(
        session.receive(Frame::Message(Ok(WSRequest::GuildList))),
        Step::React(Reaction::Close(CloseFrame {
            code: CloseCode::Error,
            reason: "You failed to identify yourself first, access denied!".to_string(),
        }))
    );
    assert_eq!(
        session.receive(Frame::Message(Err("trailing characters".to_string()))),
        Step::React(Reaction::Close(CloseFrame {
            code: CloseCode::Error,
            reason: "Corrupt message recieved".to_string(),
        }))
    );
}

#[test]
fn failed_socket_closes_with_an_error_frame() {
    let session = Session::resume(Some(9));
    assert_eq!(
        session.receive(Frame::Failed("Connection reset without closing handshake".to_string())),
        Step::React(Reaction::Close(CloseFrame {
            code: CloseCode::Error,
            reason: "Unable to process message".to_string(),
        }))
    );
}

#[test]
fn ended_stream_closes_normally() {
    let session = Session::new();
    assert_eq!(
        session.receive(Frame::Ended),
        Step::React(Reaction::Close(CloseFrame {
            code: CloseCode::Normal,
            reason: "Session finished".to_string(),
        }))
    );
}

#[test]
fn settled_identify_welcomes_once() {
    let mut session = Session::new();
    assert_eq!(
        session.settle(Outcome::Identified(Ok((7, someone())))),
        Reaction::Reply(WSOutbound::Welcome)
    );
    assert_eq!(session.state(), AuthState::Authenticated(7));
    assert_eq!(
        session.settle(Outcome::Identified(Ok((8, someone())))),
        Reaction::Close(CloseFrame {
            code: CloseCode::Error,
            reason: "You can not identify twice!".to_string(),
        })
    );
    assert_eq!(session.state(), AuthState::Authenticated(7));
}

#[test]
fn settled_bad_identify_closes_and_stays_unauthenticated() {
    let mut session = Session::new();
    assert_eq!(
        session.settle(Outcome::Identified(Err(WSMessageError::BadAuthorization))),
        Reaction::Close(CloseFrame {
            code: CloseCode::Error,
            reason: "You failed to identify yourself first, access denied!".to_string(),
        })
    );
    assert_eq!(session.state(), AuthState::Unauthenticated);
}

#[test]
fn settled_identify_with_a_backend_failure_goes_on() {
    let mut session = Session::new();
    assert_eq!(
        session.settle(Outcome::Identified(Err(WSMessageError::Communication(
            CommunicationError::Timeout
        )))),
        Reaction::Continue
    );
    assert_eq!(session.state(), AuthState::Unauthenticated);
}

#[test]
fn settled_guild_list_keeps_the_state() {
    let mut session = Session::resume(Some(7));
    let list = WSOutbound::GuildList(UserGuildList {
        gearbot_servers: vec![],
        available_servers: vec![],
    });
    assert_eq!(
        session.settle(Outcome::Listed(Ok(list.clone()))),
        Reaction::Reply(list)
    );
    assert_eq!(
        session.settle(Outcome::Listed(Err(WSMessageError::NoValidDiscordAuthToken))),
        Reaction::Close(CloseFrame {
            code: CloseCode::Error,
            reason: "No valid discord oauth token was found in storage for this user".to_string(),
        })
    );
    assert_eq!(
        session.settle(Outcome::Listed(Err(WSMessageError::Database(
            DatabaseError::Darkredis("io".to_string())
        )))),
        Reaction::Continue
    );
    assert_eq!(session.state(), AuthState::Authenticated(7));
}

#[test]
fn scenario_socket_session_end_to_end() {
    let mut session = Session::new();
    let step = session.receive(Frame::Message(identify_message("abc")));
    assert_eq!(step, Step::Run(Task::Identify { token: "abc".to_string() }));
    let reaction = session.settle(Outcome::Identified(Ok((7, someone()))));
    assert_eq!(reaction, Reaction::Reply(WSOutbound::Welcome));
    let step = session.receive(Frame::Message(Ok(WSRequest::GuildList)));
    assert_eq!(step, Step::Run(Task::GuildList { user_id: 7 }));
    let step = session.receive(Frame::Ended);
    assert_eq!(
        step,
        Step::React(Reaction::Close(CloseFrame {
            code: CloseCode::Normal,
            reason: "Session finished".to_string(),
        }))
    );
}
