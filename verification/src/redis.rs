//! The envelopes exchanged with the GearBot worker over the broker: calls
//! that go out, replies that come in, and the data the replies carry.

use vstd::prelude::*;
use vstd::std_specs::cmp::PartialEqSpec;

pub mod correlation;
pub mod redis_link;

verus! {

/// The identifier that ties a reply to the call it answers: 128 bits, drawn
/// at random for each call.
#[derive(Debug, Clone, Copy, PartialEq, Eq, Hash, Structural)]
pub struct CallId {
    pub value: u128,
}

/// A call as it is published: the operation and the identifier under which
/// its reply is awaited.
#[derive(Debug, Clone, Copy, PartialEq, Eq, Structural)]
pub struct GearBotRequest {
    pub uuid: CallId,
    pub request: Request,
}

/// An operation that the worker answers.
#[derive(Debug, Clone, Copy, PartialEq, Eq, Structural)]
pub enum Request {
    TeamInfo,
    UserInfo(u64),
    MutualGuilds(u64),
}

/// A reply as it arrives: the identifier of the call and the data.
#[derive(Debug, Clone, PartialEq, Eq)]
pub struct Reply {
    pub uuid: CallId,
    pub data: ReplyData,
}

/// What a reply carries. Each operation has one variant that answers it.
#[derive(Debug, Clone, PartialEq, Eq)]
pub enum ReplyData {
    Blank,
    TeamInfo(TeamInfo),
    UserInfo(Option<UserInfo>),
    MutualGuildList(Vec<MinimalGuildInfo>),
}

/// The people behind the bot.
#[derive(Debug, Clone, PartialEq, Eq)]
pub struct TeamInfo {
    pub members: Vec<TeamMember>,
}

#[derive(Debug, Clone, PartialEq, Eq)]
pub struct TeamMember {
    pub username: String,
    pub discriminator: String,
    /// A 64-bit identifier, kept as text for the browser's sake.
    pub id: String,
    pub avatar: String,
    pub socials: TeamSocials,
    pub team: String,
}

#[derive(Debug, Clone, PartialEq, Eq)]
pub struct TeamSocials {
    pub twitter: Option<String>,
    pub github: Option<String>,
    pub website: Option<String>,
}

/// What the worker knows of one user.
#[derive(Debug, Clone, PartialEq, Eq)]
pub struct UserInfo {
    pub name: String,
    pub discriminator: String,
    pub avatar: Option<String>,
    pub bot_user: bool,
    pub system_user: bool,
    /// The bits of the user's public flags.
    pub public_flags: Option<u64>,
}

/// A guild that the worker and a user share, with the user's standing in it
/// as the worker sees it.
#[derive(Debug, Clone, PartialEq, Eq)]
pub struct MinimalGuildInfo {
    pub id: u64,
    pub name: String,
    pub icon: Option<String>,
    pub owned: bool,
    pub permissions: u64,
}

/// The mathematical value of a [`MinimalGuildInfo`].
pub struct MinimalGuildInfoView {
    pub id: u64,
    pub name: Seq<char>,
    pub icon: Option<Seq<char>>,
    pub owned: bool,
    pub permissions: u64,
}

impl DeepView for MinimalGuildInfo {
    type V = MinimalGuildInfoView;

    open spec fn deep_view(&self) -> MinimalGuildInfoView {
        MinimalGuildInfoView {
            id: self.id,
            name: self.name@,
            icon: self.icon.deep_view(),
            owned: self.owned,
            permissions: self.permissions,
        }
    }
}

impl View for MinimalGuildInfo {
    type V = MinimalGuildInfoView;

    open spec fn view(&self) -> MinimalGuildInfoView {
        self.deep_view()
    }
}

impl Request {
    /// Whether `data` is of the variant that answers this operation.
    pub open spec fn answered_by(&self, data: ReplyData) -> bool {
        match self {
            Request::TeamInfo => data is TeamInfo,
            Request::UserInfo(_) => data is UserInfo,
            Request::MutualGuilds(_) => data is MutualGuildList,
        }
    }

    /// The seconds that a call of this operation is given to be answered:
    /// five for the team, which a page load waits on, and sixty for the
    /// rest.
    pub open spec fn budget(&self) -> u64 {
        match self {
            Request::TeamInfo => 5,
            _ => 60,
        }
    }

    /// Whether `data` is of the variant that answers this operation.
    pub fn accepts(&self, data: &ReplyData) -> (r: bool)
        ensures
            r == self.answered_by(*data),
    {
        match (self, data) {
            (Request::TeamInfo, ReplyData::TeamInfo(_)) => true,
            (Request::UserInfo(_), ReplyData::UserInfo(_)) => true,
            (Request::MutualGuilds(_), ReplyData::MutualGuildList(_)) => true,
            _ => false,
        }
    }

    /// The seconds that a call of this operation is given to be answered.
    pub fn max_wait(&self) -> (seconds: u64)
        ensures
            seconds == self.budget(),
    {
        match self {
            Request::TeamInfo => 5,
            _ => 60,
        }
    }
}

/// Whether `t` is the value that `Default` gives for its type, as `==`
/// judges it. Fields that hold it are left out of what is sent.
pub fn is_default<T: Default + PartialEq>(t: &T) -> (r: bool)
    ensures
        exists|d: T| #[trigger]
            call_ensures(T::default, (), d) && (T::obeys_eq_spec() ==> r == t.eq_spec(&d)),
{
    let d = T::default();
    *t == d
}

} // verus!
