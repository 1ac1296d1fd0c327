//! The messages of the socket protocol between a dashboard and the gateway.

use vstd::prelude::*;

verus! {

/// A message from the dashboard.
#[derive(Debug, Clone, PartialEq, Eq)]
pub enum WSRequest {
    /// Presents the session token that a login handed out.
    Identify { token: String },
    /// Asks for the guilds of the identified user.
    GuildList,
}

/// A message to the dashboard.
#[derive(Debug, Clone, PartialEq, Eq)]
pub enum WSOutbound {
    Welcome,
    GuildList(UserGuildList),
}

/// The guilds of a user in two lists: those that the bot is in too, and the
/// rest.
#[derive(Debug, Clone, PartialEq, Eq)]
pub struct UserGuildList {
    pub gearbot_servers: Vec<MinimalGuild>,
    pub available_servers: Vec<MinimalGuild>,
}

/// One guild as the dashboard shows it.
#[derive(Debug, Clone, PartialEq, Eq)]
pub struct MinimalGuild {
    /// A 64-bit identifier in decimal, kept as text for the browser's sake.
    pub id: String,
    pub name: String,
    pub icon: Option<String>,
    pub owned: bool,
    pub permissions: u64,
}

/// The mathematical value of a [`MinimalGuild`].
pub struct MinimalGuildView {
    pub id: Seq<char>,
    pub name: Seq<char>,
    pub icon: Option<Seq<char>>,
    pub owned: bool,
    pub permissions: u64,
}

/// The mathematical value of a [`UserGuildList`].
pub struct UserGuildListView {
    pub gearbot_servers: Seq<MinimalGuildView>,
    pub available_servers: Seq<MinimalGuildView>,
}

/// The mathematical value of a [`WSOutbound`].
pub enum WSOutboundView {
    Welcome,
    GuildList(UserGuildListView),
}

impl DeepView for MinimalGuild {
    type V = MinimalGuildView;

    open spec fn deep_view(&self) -> MinimalGuildView {
        MinimalGuildView {
            id: self.id@,
            name: self.name@,
            icon: self.icon.deep_view(),
            owned: self.owned,
            permissions: self.permissions,
        }
    }
}

impl View for MinimalGuild {
    type V = MinimalGuildView;

    open spec fn view(&self) -> MinimalGuildView {
        self.deep_view()
    }
}

impl DeepView for UserGuildList {
    type V = UserGuildListView;

    open spec fn deep_view(&self) -> UserGuildListView {
        UserGuildListView {
            gearbot_servers: self.gearbot_servers.deep_view(),
            available_servers: self.available_servers.deep_view(),
        }
    }
}

impl View for UserGuildList {
    type V = UserGuildListView;

    open spec fn view(&self) -> UserGuildListView {
        self.deep_view()
    }
}

impl DeepView for WSOutbound {
    type V = WSOutboundView;

    open spec fn deep_view(&self) -> WSOutboundView {
        match self {
            WSOutbound::Welcome => WSOutboundView::Welcome,
            WSOutbound::GuildList(list) => WSOutboundView::GuildList(list.deep_view()),
        }
    }
}

impl View for WSOutbound {
    type V = WSOutboundView;

    open spec fn view(&self) -> WSOutboundView {
        self.deep_view()
    }
}

} // verus!
