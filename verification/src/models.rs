//! What the identity provider says of a user, with identifiers and
//! permission bits as plain integers.

use vstd::prelude::*;

verus! {

/// A guild that a user is a member of, as the provider lists it.
#[derive(Debug, Clone, PartialEq, Eq)]
pub struct UserGuild {
    pub id: u64,
    pub name: String,
    pub icon: Option<String>,
    pub owner: bool,
    /// The bits of the user's permissions in the guild.
    pub permissions: u64,
    pub features: Vec<String>,
}

/// The mathematical value of a [`UserGuild`].
pub struct UserGuildView {
    pub id: u64,
    pub name: Seq<char>,
    pub icon: Option<Seq<char>>,
    pub owner: bool,
    pub permissions: u64,
    pub features: Seq<Seq<char>>,
}

impl DeepView for UserGuild {
    type V = UserGuildView;

    open spec fn deep_view(&self) -> UserGuildView {
        UserGuildView {
            id: self.id,
            name: self.name@,
            icon: self.icon.deep_view(),
            owner: self.owner,
            permissions: self.permissions,
            features: self.features.deep_view(),
        }
    }
}

impl View for UserGuild {
    type V = UserGuildView;

    open spec fn view(&self) -> UserGuildView {
        self.deep_view()
    }
}

} // verus!
