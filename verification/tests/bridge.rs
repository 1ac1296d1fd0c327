use gearbot_api::error::{CommunicationError, DatabaseError};
use gearbot_api::redis::redis_link::{
    CacheWrite, Lapse, RedisLink, DEFAULT_WAIT, INBOUND_CHANNEL, OUTBOUND_CHANNEL,
};
use std::collections::HashSet;
use gearbot_api::redis::{
    CallId, MinimalGuildInfo, Reply, ReplyData, Request, TeamInfo, TeamMember, TeamSocials,
    UserInfo,
};

fn call(value: u128) -> CallId {
    CallId { value }
}

fn known_user(name: &str) -> UserInfo {
    UserInfo {
        name: name.to_string(),
        discriminator: "0001".to_string(),
        avatar: None,
        bot_user: false,
        system_user: false,
        public_flags: Some(64),
    }
}

fn team_member(name: &str) -> TeamMember {
    TeamMember {
        username: name.to_string(),
        discriminator: "0001".to_string(),
        id: "106354106196570112".to_string(),
        avatar: "a_1".to_string(),
        socials: TeamSocials {
            twitter: None,
            github: Some("gearbot".to_string()),
            website: None,
        },
        team: "Core".to_string(),
    }
}

#[test]
fn channels_are_the_fixed_ones() {
    assert_eq!(OUTBOUND_CHANNEL, "api-out");
    assert_eq!(INBOUND_CHANNEL, "gearbot-out");
    assert_eq!(DEFAULT_WAIT, 60);
}

#[test]
fn budgets_are_five_and_sixty_seconds() {
    assert_eq!(Request::TeamInfo.max_wait(), 5);
    assert_eq!(Request::UserInfo(42).max_wait(), 60);
    assert_eq!(Request::MutualGuilds(42).max_wait(), 60);
}

#[test]
fn expected_variants_are_accepted() {
    assert!(Request::TeamInfo.accepts(&ReplyData::TeamInfo(TeamInfo { members: vec![] })));
    assert!(Request::UserInfo(1).accepts(&ReplyData::UserInfo(None)));
    assert!(Request::MutualGuilds(1).accepts(&ReplyData::MutualGuildList(vec![])));
    assert!(!Request::TeamInfo.accepts(&ReplyData::Blank));
    assert!(!Request::TeamInfo.accepts(&ReplyData::UserInfo(None)));
    assert!(!Request::UserInfo(1).accepts(&ReplyData::MutualGuildList(vec![])));
    assert!(!Request::MutualGuilds(1).accepts(&ReplyData::TeamInfo(TeamInfo { members: vec![] })));
}

#[test]
fn open_registers_under_the_seed() {
    let mut link = RedisLink::new();
    let ticket = link.open(call(5), Request::UserInfo(42), None, "caller", 100);
    assert_eq!(ticket.envelope.uuid, call(5));
    assert_eq!(ticket.envelope.request, Request::UserInfo(42));
    assert_eq!(ticket.max_wait, 60);
    assert!(link.is_pending(call(5)));
    assert_eq!(link.pending_calls(), 1);
}

#[test]
fn open_keeps_the_callers_budget() {
    let mut link = RedisLink::new();
    let ticket = link.open(call(5), Request::TeamInfo, Some(5), (), 100);
    assert_eq!(ticket.max_wait, 5);
    let ticket = link.open(call(6), Request::TeamInfo, Some(0), (), 100);
    assert_eq!(ticket.max_wait, 0);
}

#[test]
fn open_never_takes_a_pending_identifier() {
    let mut link = RedisLink::new();
    let first = link.open(call(5), Request::TeamInfo, None, "first", 100);
    let second = link.open(call(5), Request::TeamInfo, None, "second", 100);
    assert_eq!(first.envelope.uuid, call(5));
    assert_eq!(second.envelope.uuid, call(6));
    assert_eq!(link.pending_calls(), 2);
    let reply = Reply { uuid: call(5), data: ReplyData::Blank };
    assert_eq!(link.deliver(Ok(reply.clone()), 101), Some(("first", reply)));
}

#[test]
fn get_reply_draws_different_identifiers() {
    let mut link = RedisLink::new();
    let a = link.get_reply(Request::TeamInfo, Some(5), 'a', 100);
    let b = link.get_reply(Request::UserInfo(1), None, 'b', 100);
    let c = link.get_reply(Request::MutualGuilds(1), None, 'c', 100);
    assert_ne!(a.envelope.uuid, b.envelope.uuid);
    assert_ne!(a.envelope.uuid, c.envelope.uuid);
    assert_ne!(b.envelope.uuid, c.envelope.uuid);
    assert_eq!(link.pending_calls(), 3);
    assert_eq!(a.envelope.request, Request::TeamInfo);
    assert_eq!(a.max_wait, 5);
    assert_eq!(b.max_wait, 60);
    let reply = Reply { uuid: b.envelope.uuid, data: ReplyData::UserInfo(None) };
    assert_eq!(link.deliver(Ok(reply.clone()), 101), Some(('b', reply)));
    assert_eq!(link.pending_calls(), 2);
}

#[test]
fn concurrent_calls_get_their_own_replies() {
    let mut link = RedisLink::new();
    link.open(call(1), Request::UserInfo(1), None, "one", 100);
    link.open(call(2), Request::UserInfo(2), None, "two", 100);
    let for_two = Reply { uuid: call(2), data: ReplyData::UserInfo(Some(known_user("two"))) };
    let for_one = Reply { uuid: call(1), data: ReplyData::UserInfo(Some(known_user("one"))) };
    assert_eq!(link.deliver(Ok(for_two.clone()), 101), Some(("two", for_two)));
    assert!(link.is_pending(call(1)));
    assert_eq!(link.deliver(Ok(for_one.clone()), 101), Some(("one", for_one)));
    assert_eq!(link.pending_calls(), 0);
}

#[test]
fn malformed_message_is_dropped() {
    let mut link = RedisLink::new();
    link.open(call(1), Request::TeamInfo, None, "one", 100);
    assert_eq!(link.deliver(Err("expected value".to_string()), 101), None);
    assert_eq!(link.pending_calls(), 1);
    assert!(link.is_pending(call(1)));
}

#[test]
fn reply_for_unknown_call_is_dropped() {
    let mut link = RedisLink::new();
    link.open(call(1), Request::TeamInfo, None, "one", 100);
    let stray = Reply { uuid: call(77), data: ReplyData::Blank };
    assert_eq!(link.deliver(Ok(stray), 101), None);
    assert_eq!(link.pending_calls(), 1);
    assert!(link.is_pending(call(1)));
}

#[test]
fn abandon_reports_each_lapse() {
    let mut link: RedisLink<()> = RedisLink::new();
    assert_eq!(link.abandon(call(1), Lapse::Elapsed), CommunicationError::Timeout);
    assert_eq!(
        link.abandon(call(1), Lapse::Publish("refused".to_string())),
        CommunicationError::DarkRedis("refused".to_string())
    );
    assert_eq!(
        link.abandon(call(1), Lapse::Encode("key".to_string())),
        CommunicationError::DataFormat("key".to_string())
    );
    assert_eq!(
        link.abandon(call(1), Lapse::Dropped("closed".to_string())),
        CommunicationError::Receiver("closed".to_string())
    );
}

#[test]
fn timed_out_call_is_removed() {
    let mut link = RedisLink::new();
    link.open(call(1), Request::UserInfo(42), None, "waiter", 100);
    link.open(call(2), Request::TeamInfo, Some(5), "other", 100);
    assert_eq!(link.abandon(call(1), Lapse::Elapsed), CommunicationError::Timeout);
    assert!(!link.is_pending(call(1)));
    assert!(link.is_pending(call(2)));
    assert_eq!(link.pending_calls(), 1);
}

#[test]
fn scenario_team_info_reply_within_budget() {
    let mut link = RedisLink::new();
    let x = call(0x1234);
    let ticket = link.open(x, Request::TeamInfo, Some(Request::TeamInfo.max_wait()), "caller", 100);
    assert_eq!(ticket.envelope.uuid, x);
    assert_eq!(ticket.max_wait, 5);
    let reply = Reply { uuid: x, data: ReplyData::TeamInfo(TeamInfo { members: vec![] }) };
    let (waiter, reply) = link.deliver(Ok(reply), 101).unwrap();
    assert_eq!(waiter, "caller");
    let own = link.await_reply(x, reply);
    assert!(own.is_some());
    let team = link.get_team_members(Ok(own.unwrap())).unwrap();
    assert!(team.members.is_empty());
    assert_eq!(link.pending_calls(), 0);
}

#[test]
fn scenario_user_info_times_out_and_late_reply_is_discarded() {
    let mut link = RedisLink::new();
    let x = call(0x42);
    let ticket = link.open(x, Request::UserInfo(42), None, "caller", 100);
    assert_eq!(ticket.max_wait, 60);
    let error = link.abandon(ticket.envelope.uuid, Lapse::Elapsed);
    assert_eq!(error, CommunicationError::Timeout);
    assert_eq!(link.get_user_info(Err(error)), Err(CommunicationError::Timeout));
    assert_eq!(link.pending_calls(), 0);
    let late = Reply { uuid: x, data: ReplyData::UserInfo(Some(known_user("late"))) };
    assert_eq!(link.deliver(Ok(late), 101), None);
    assert_eq!(link.pending_calls(), 0);
}

#[test]
fn await_reply_filters_by_identifier() {
    let link: RedisLink<()> = RedisLink::new();
    let reply = Reply { uuid: call(2), data: ReplyData::Blank };
    assert_eq!(link.await_reply(call(1), reply.clone()), None);
    assert_eq!(link.await_reply(call(2), reply.clone()), Some(reply));
}

#[test]
fn team_members_come_out_of_a_team_reply() {
    let link: RedisLink<()> = RedisLink::new();
    let info = TeamInfo { members: vec![team_member("AEnterprise")] };
    let reply = Reply { uuid: call(1), data: ReplyData::TeamInfo(info.clone()) };
    assert_eq!(link.get_team_members(Ok(reply)), Ok(info));
}

#[test]
fn wrong_variant_is_a_wrong_reply_type() {
    let link: RedisLink<()> = RedisLink::new();
    let blank = Reply { uuid: call(1), data: ReplyData::Blank };
    let users = Reply { uuid: call(1), data: ReplyData::UserInfo(None) };
    let team = Reply { uuid: call(1), data: ReplyData::TeamInfo(TeamInfo { members: vec![] }) };
    assert_eq!(
        link.get_team_members(Ok(blank.clone())),
        Err(CommunicationError::WrongReplyType)
    );
    assert_eq!(
        link.get_team_members(Ok(users.clone())),
        Err(CommunicationError::WrongReplyType)
    );
    assert_eq!(
        link.get_user_info(Ok(team.clone())),
        Err(CommunicationError::WrongReplyType)
    );
    assert_eq!(
        link.get_mutual_guilds(Ok(users)),
        Err(CommunicationError::WrongReplyType)
    );
    assert_eq!(
        link.get_mutual_guilds(Ok(blank)),
        Err(CommunicationError::WrongReplyType)
    );
}

#[test]
fn user_info_comes_out_of_a_user_reply() {
    let link: RedisLink<()> = RedisLink::new();
    let reply = Reply { uuid: call(1), data: ReplyData::UserInfo(Some(known_user("Blob"))) };
    assert_eq!(link.get_user_info(Ok(reply)), Ok(Some(known_user("Blob"))));
    let unknown = Reply { uuid: call(1), data: ReplyData::UserInfo(None) };
    assert_eq!(link.get_user_info(Ok(unknown)), Ok(None));
}

#[test]
fn mutual_guilds_come_out_of_a_guild_reply() {
    let link: RedisLink<()> = RedisLink::new();
    let guild = MinimalGuildInfo {
        id: 365498559174410241,
        name: "The Gearbox".to_string(),
        icon: None,
        owned: false,
        permissions: 8,
    };
    let reply = Reply { uuid: call(1), data: ReplyData::MutualGuildList(vec![guild.clone()]) };
    assert_eq!(link.get_mutual_guilds(Ok(reply)), Ok(vec![guild]));
}

#[test]
fn failed_calls_pass_their_failure_on() {
    let link: RedisLink<()> = RedisLink::new();
    assert_eq!(
        link.get_team_members(Err(CommunicationError::Timeout)),
        Err(CommunicationError::Timeout)
    );
    assert_eq!(
        link.get_user_info(Err(CommunicationError::DarkRedis("io".to_string()))),
        Err(CommunicationError::DarkRedis("io".to_string()))
    );
    assert_eq!(
        link.get_mutual_guilds(Err(CommunicationError::DataFormat("eof".to_string()))),
        Err(CommunicationError::DataFormat("eof".to_string()))
    );
}

#[test]
fn cache_lookup_outcomes() {
    let link: RedisLink<()> = RedisLink::new();
    assert_eq!(link.get(Ok(Some(Ok(7u64)))), Ok(Some(7u64)));
    assert_eq!(link.get::<u64>(Ok(None)), Ok(None));
    assert_eq!(
        link.get::<u64>(Ok(Some(Err("eof".to_string())))),
        Err(DatabaseError::Deserializing("eof".to_string()))
    );
    assert_eq!(
        link.get::<u64>(Err("refused".to_string())),
        Err(DatabaseError::Darkredis("refused".to_string()))
    );
}

#[test]
fn cache_write_outcomes() {
    let link: RedisLink<()> = RedisLink::new();
    assert_eq!(
        link.set("k".to_string(), Ok("7".to_string()), Some(180)),
        Ok(CacheWrite::Expire { key: "k".to_string(), data: "7".to_string(), seconds: 180 })
    );
    assert_eq!(
        link.set("k".to_string(), Ok("7".to_string()), None),
        Ok(CacheWrite::Keep { key: "k".to_string(), data: "7".to_string() })
    );
    assert_eq!(
        link.set("k".to_string(), Err("nan".to_string()), Some(1)),
        Err(DatabaseError::Serializing("nan".to_string()))
    );
    assert_eq!(link.delete(Ok(())), Ok(()));
    assert_eq!(
        link.delete(Err("io".to_string())),
        Err(DatabaseError::Darkredis("io".to_string()))
    );
}

#[test]
fn deadline_is_the_budget_after_the_opening() {
    let mut link = RedisLink::new();
    let ticket = link.open(call(1), Request::TeamInfo, Some(5), (), 1000);
    assert_eq!(ticket.deadline, 1005);
    let ticket = link.open(call(2), Request::UserInfo(1), None, (), 1000);
    assert_eq!(ticket.deadline, 1060);
    let ticket = link.open(call(3), Request::UserInfo(1), Some(0), (), 7);
    assert_eq!(ticket.deadline, 7);
}

#[test]
fn deadline_stops_at_the_end_of_the_clock() {
    let mut link = RedisLink::new();
    let ticket = link.open(call(1), Request::TeamInfo, Some(5), (), u64::MAX - 2);
    assert_eq!(ticket.deadline, u64::MAX);
    let ticket = link.open(call(2), Request::TeamInfo, Some(u64::MAX), (), 1);
    assert_eq!(ticket.deadline, u64::MAX);
    let ticket = link.open(call(3), Request::TeamInfo, Some(5), (), u64::MAX - 5);
    assert_eq!(ticket.deadline, u64::MAX);
}

#[test]
fn reply_at_the_deadline_is_delivered() {
    let mut link = RedisLink::new();
    link.open(call(1), Request::TeamInfo, Some(5), "caller", 1000);
    let reply = Reply { uuid: call(1), data: ReplyData::Blank };
    assert_eq!(link.deliver(Ok(reply.clone()), 1005), Some(("caller", reply)));
    assert_eq!(link.pending_calls(), 0);
}

#[test]
fn reply_after_the_deadline_is_dropped() {
    let mut link = RedisLink::new();
    link.open(call(1), Request::TeamInfo, Some(5), "caller", 1000);
    let reply = Reply { uuid: call(1), data: ReplyData::Blank };
    assert_eq!(link.deliver(Ok(reply.clone()), 1006), None);
    assert!(link.is_pending(call(1)));
    assert_eq!(link.abandon(call(1), Lapse::Elapsed), CommunicationError::Timeout);
    assert_eq!(link.deliver(Ok(reply), 1004), None);
    assert_eq!(link.pending_calls(), 0);
}

#[test]
fn expire_clears_the_overdue_calls_only() {
    let mut link = RedisLink::new();
    link.open(call(1), Request::TeamInfo, Some(5), "a", 1000);
    link.open(call(2), Request::UserInfo(1), None, "b", 1000);
    link.open(call(3), Request::TeamInfo, Some(5), "c", 1001);
    link.open(call(4), Request::TeamInfo, Some(5), "d", 1002);
    assert_eq!(link.expire(1005), vec![]);
    assert_eq!(link.pending_calls(), 4);
    let gone: HashSet<(CallId, &str)> = link.expire(1007).into_iter().collect();
    let expected: HashSet<(CallId, &str)> =
        vec![(call(1), "a"), (call(3), "c")].into_iter().collect();
    assert_eq!(gone, expected);
    assert_eq!(link.pending_calls(), 2);
    assert!(link.is_pending(call(2)));
    assert!(link.is_pending(call(4)));
    assert_eq!(link.expire(1007), vec![]);
    assert_eq!(link.expire(1008), vec![(call(4), "d")]);
    assert_eq!(link.expire(u64::MAX), vec![(call(2), "b")]);
    assert_eq!(link.pending_calls(), 0);
}

#[test]
fn silent_peer_leaves_no_waiters_behind() {
    let mut link = RedisLink::new();
    let mut now: u64 = 0;
    let mut told = 0;
    while now < 500 {
        link.get_reply(Request::UserInfo(now), None, now, now);
        told += link.expire(now).len();
        assert!(link.pending_calls() <= 61);
        now += 1;
    }
    told += link.expire(now + 60).len();
    assert_eq!(told, 500);
    assert_eq!(link.pending_calls(), 0);
}

#[test]
fn lapse_turns_into_its_error() {
    assert_eq!(Lapse::Elapsed.into_error(), CommunicationError::Timeout);
    assert_eq!(
        Lapse::Publish("x".to_string()).into_error(),
        CommunicationError::DarkRedis("x".to_string())
    );
}

#[test]
fn scenario_silent_user_info_call_is_cleared_after_sixty_seconds() {
    let mut link = RedisLink::new();
    let ticket = link.get_reply(Request::UserInfo(42), None, "caller", 10);
    let x = ticket.envelope.uuid;
    assert_eq!(ticket.max_wait, 60);
    assert_eq!(ticket.deadline, 70);
    assert_eq!(link.expire(70), vec![]);
    assert_eq!(link.expire(71), vec![(x, "caller")]);
    assert_eq!(Lapse::Elapsed.into_error(), CommunicationError::Timeout);
    let late = Reply { uuid: x, data: ReplyData::UserInfo(Some(known_user("late"))) };
    assert_eq!(link.deliver(Ok(late), 71), None);
    assert_eq!(link.pending_calls(), 0);
}
