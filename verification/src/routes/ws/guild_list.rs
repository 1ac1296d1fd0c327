//! The guild-list handler: the guilds of a user, parted into those that the
//! bot is in too and those that it could be added to.

use vstd::prelude::*;
use vstd::string::*;
use crate::error::{CommunicationError, DatabaseError, RequestError, WSMessageError};
use crate::models::{UserGuild, UserGuildView};
use crate::redis::{MinimalGuildInfo, MinimalGuildInfoView};
use crate::routes::ws::models::{
    MinimalGuild, MinimalGuildView, UserGuildList, UserGuildListView, WSOutbound, WSOutboundView,
};
use crate::text::{decimal, lemma_decimal_injective, to_decimal};

verus! {

/// The prefix of the cache keys under which provider tokens are kept.
pub const ACCESS_KEY_PREFIX: &'static str = "access_token:";

/// A guild of the worker's list as the dashboard shows it: with the
/// ownership and permission bits that the worker reported.
pub open spec fn managed(guild: MinimalGuildInfoView) -> MinimalGuildView {
    MinimalGuildView {
        id: decimal(guild.id as nat),
        name: guild.name,
        icon: guild.icon,
        owned: guild.owned,
        permissions: guild.permissions,
    }
}

/// A guild of the provider's list as the dashboard shows it: with the
/// ownership and permission bits that the provider reported.
pub open spec fn available(guild: UserGuildView) -> MinimalGuildView {
    MinimalGuildView {
        id: decimal(guild.id as nat),
        name: guild.name,
        icon: guild.icon,
        owned: guild.owner,
        permissions: guild.permissions,
    }
}

/// Whether the worker's list holds a guild with identifier `id`.
pub open spec fn shared(bot_list: Seq<MinimalGuildInfoView>, id: u64) -> bool {
    exists|i: int| 0 <= i < bot_list.len() && #[trigger] bot_list[i].id == id
}

/// The worker's list as the dashboard shows it, in its order.
pub open spec fn managed_list(bot_list: Seq<MinimalGuildInfoView>) -> Seq<MinimalGuildView> {
    bot_list.map_values(|guild: MinimalGuildInfoView| managed(guild))
}

/// The test that a guild of the provider's list passes when the worker's
/// list does not hold it.
pub open spec fn not_shared(bot_list: Seq<MinimalGuildInfoView>) -> spec_fn(UserGuildView) -> bool {
    |guild: UserGuildView| !shared(bot_list, guild.id)
}

/// The guilds of the provider's list that the worker's list does not hold,
/// in their order.
pub open spec fn unshared(
    bot_list: Seq<MinimalGuildInfoView>,
    discord_list: Seq<UserGuildView>,
) -> Seq<UserGuildView> {
    discord_list.filter(not_shared(bot_list))
}

/// Whether `list` shows a guild under the identifier `id`.
pub open spec fn lists(list: Seq<MinimalGuildView>, id: Seq<char>) -> bool {
    exists|i: int| 0 <= i < list.len() && #[trigger] list[i].id == id
}

/// The guilds of the provider's list that the worker's list does not hold,
/// as the dashboard shows them.
pub open spec fn available_list(
    bot_list: Seq<MinimalGuildInfoView>,
    discord_list: Seq<UserGuildView>,
) -> Seq<MinimalGuildView> {
    unshared(bot_list, discord_list).map_values(|guild: UserGuildView| available(guild))
}

/// The two lists for a user: every guild of the worker's list, and every
/// guild of the provider's list that the worker's list does not hold.
pub open spec fn parted(
    bot_list: Seq<MinimalGuildInfoView>,
    discord_list: Seq<UserGuildView>,
) -> UserGuildListView {
    UserGuildListView {
        gearbot_servers: managed_list(bot_list),
        available_servers: available_list(bot_list, discord_list),
    }
}

/// How the unshared guilds grow with one more guild of the provider's list.
proof fn lemma_unshared_step(bot_list: Seq<MinimalGuildInfoView>, discord_list: Seq<UserGuildView>)
    requires
        discord_list.len() > 0,
    ensures
        unshared(bot_list, discord_list) == if shared(bot_list, discord_list.last().id) {
            unshared(bot_list, discord_list.drop_last())
        } else {
            unshared(bot_list, discord_list.drop_last()).push(discord_list.last())
        },
{
    reveal(Seq::filter);
}

/// The cache key under which the provider token of user `user_id` is kept.
pub fn access_token_key(user_id: u64) -> (key: String)
    ensures
        key@ == ACCESS_KEY_PREFIX@ + decimal(user_id as nat),
{
    let mut key = String::from_str(ACCESS_KEY_PREFIX);
    let id = to_decimal(user_id);
    key.append(id.as_str());
    key
}

/// The provider token of the user, from what the cache said. Without one
/// the guilds cannot be listed.
pub fn provider_token(cached: Result<Option<String>, DatabaseError>) -> (r: Result<
    String,
    WSMessageError,
>)
    ensures
        r == match cached {
            Ok(Some(token)) => Ok(token),
            Ok(None) => Err(WSMessageError::NoValidDiscordAuthToken),
            Err(e) => Err(WSMessageError::Database(e)),
        },
{
    match cached {
        Ok(Some(token)) => Ok(token),
        Ok(None) => Err(WSMessageError::NoValidDiscordAuthToken),
        Err(e) => Err(WSMessageError::Database(e)),
    }
}

/// A copy of an optional text.
fn copy_of(text: &Option<String>) -> (copy: Option<String>)
    ensures
        copy == *text,
{
    match text {
        Some(s) => Some(s.clone()),
        None => None,
    }
}

/// Whether `bot_list` holds a guild with identifier `id`.
fn is_shared(bot_list: &Vec<MinimalGuildInfo>, id: u64) -> (found: bool)
    ensures
        found == shared(bot_list.deep_view(), id),
{
    let mut i: usize = 0;
    while i < bot_list.len()
        invariant
            i <= bot_list@.len(),
            forall|k: int| 0 <= k < i ==> bot_list@[k].id != id,
        decreases bot_list@.len() - i,
    {
        if bot_list[i].id == id {
            assert(bot_list.deep_view()[i as int].id == id);
            return true;
        }
        i += 1;
    }
    let ghost guilds = bot_list.deep_view();
    assert forall|k: int| 0 <= k < guilds.len() implies #[trigger] guilds[k].id != id by {
        assert(bot_list@[k].id != id);
    }
    false
}

/// The guild list of a user out of the worker's list of shared guilds and
/// the provider's list of all the user's guilds. Where the worker's call
/// failed, its failure is reported; else, where the provider's request
/// failed, that one.
pub fn guild_list(
    bot_list: Result<Vec<MinimalGuildInfo>, CommunicationError>,
    discord_list: Result<Vec<UserGuild>, RequestError>,
) -> (r: Result<WSOutbound, WSMessageError>)
    ensures
        match bot_list {
            Err(e) => r == Err::<WSOutbound, WSMessageError>(WSMessageError::Communication(e)),
            Ok(bot) => match discord_list {
                Err(e) => r == Err::<WSOutbound, WSMessageError>(WSMessageError::DiscordRequest(e)),
                Ok(discord) => r matches Ok(reply) && reply.deep_view()
                    == WSOutboundView::GuildList(parted(bot.deep_view(), discord.deep_view())),
            },
        },
{
    let bot = match bot_list {
        Ok(bot) => bot,
        Err(e) => {
            return Err(WSMessageError::Communication(e));
        },
    };
    let discord = match discord_list {
        Ok(discord) => discord,
        Err(e) => {
            return Err(WSMessageError::DiscordRequest(e));
        },
    };
    let ghost bot_view = bot.deep_view();
    let ghost discord_view = discord.deep_view();

    let mut gearbot_servers: Vec<MinimalGuild> = Vec::new();
    let mut i: usize = 0;
    while i < bot.len()
        invariant
            i <= bot@.len(),
            bot_view == bot.deep_view(),
            gearbot_servers.deep_view() == managed_list(bot_view.take(i as int)),
        decreases bot@.len() - i,
    {
        let guild = &bot[i];
        let ghost listed = gearbot_servers.deep_view();
        let entry = MinimalGuild {
            id: to_decimal(guild.id),
            name: guild.name.clone(),
            icon: copy_of(&guild.icon),
            owned: guild.owned,
            permissions: guild.permissions,
        };
        assert(entry.deep_view() == managed(bot_view[i as int]));
        gearbot_servers.push(entry);
        assert(gearbot_servers.deep_view() =~= listed.push(entry.deep_view()));
        assert(managed_list(bot_view.take(i + 1)) =~= listed.push(managed(bot_view[i as int])));
        i += 1;
    }
    assert(bot_view.take(bot@.len() as int) =~= bot_view);

    let mut available_servers: Vec<MinimalGuild> = Vec::new();
    let mut j: usize = 0;
    assert(unshared(bot_view, discord_view.take(0)) =~= Seq::<UserGuildView>::empty()) by {
        reveal(Seq::filter);
    }
    while j < discord.len()
        invariant
            j <= discord@.len(),
            bot_view == bot.deep_view(),
            discord_view == discord.deep_view(),
            available_servers.deep_view() == available_list(bot_view, discord_view.take(j as int)),
        decreases discord@.len() - j,
    {
        let guild = &discord[j];
        let ghost listed = available_servers.deep_view();
        let ghost upto = discord_view.take(j + 1);
        proof {
            assert(upto.drop_last() =~= discord_view.take(j as int));
            assert(upto.last() == guild.deep_view());
            lemma_unshared_step(bot_view, upto);
        }
        if !is_shared(&bot, guild.id) {
            let entry = MinimalGuild {
                id: to_decimal(guild.id),
                name: guild.name.clone(),
                icon: copy_of(&guild.icon),
                owned: guild.owner,
                permissions: guild.permissions,
            };
            assert(entry.deep_view() == available(guild.deep_view()));
            available_servers.push(entry);
            assert(available_servers.deep_view() =~= listed.push(entry.deep_view()));
            assert(available_list(bot_view, upto) =~= listed.push(available(guild.deep_view())));
        }
        j += 1;
    }
    assert(discord_view.take(discord@.len() as int) =~= discord_view);

    let reply = WSOutbound::GuildList(UserGuildList { gearbot_servers, available_servers });
    Ok(reply)
}

/// The two lists part the user's guilds: no identifier is shown in both,
/// and every guild of the provider's list is shown in exactly one of them.
pub proof fn law_guild_lists_part(
    bot_list: Seq<MinimalGuildInfoView>,
    discord_list: Seq<UserGuildView>,
)
    ensures
        forall|id: Seq<char>|
            !(#[trigger] lists(parted(bot_list, discord_list).gearbot_servers, id) && lists(
                parted(bot_list, discord_list).available_servers,
                id,
            )),
        forall|k: int|
            0 <= k < discord_list.len() ==> (lists(
                parted(bot_list, discord_list).gearbot_servers,
                decimal(#[trigger] discord_list[k].id as nat),
            ) != lists(
                parted(bot_list, discord_list).available_servers,
                decimal(discord_list[k].id as nat),
            )),
{
    let gearbot = parted(bot_list, discord_list).gearbot_servers;
    let offered = parted(bot_list, discord_list).available_servers;
    let rest = unshared(bot_list, discord_list);
    assert forall|id: Seq<char>| !(#[trigger] lists(gearbot, id) && lists(offered, id)) by {
        if lists(gearbot, id) && lists(offered, id) {
            let i = choose|i: int| 0 <= i < gearbot.len() && #[trigger] gearbot[i].id == id;
            let j = choose|j: int| 0 <= j < offered.len() && #[trigger] offered[j].id == id;
            discord_list.lemma_filter_pred(not_shared(bot_list), j);
            lemma_decimal_injective(bot_list[i].id as nat, rest[j].id as nat);
            assert(shared(bot_list, rest[j].id));
        }
    }
    assert forall|k: int| 0 <= k < discord_list.len() implies (lists(
        gearbot,
        decimal(#[trigger] discord_list[k].id as nat),
    ) != lists(offered, decimal(discord_list[k].id as nat))) by {
        let id = discord_list[k].id;
        if shared(bot_list, id) {
            let i = choose|i: int| 0 <= i < bot_list.len() && #[trigger] bot_list[i].id == id;
            assert(gearbot[i].id == decimal(id as nat));
        } else {
            discord_list.lemma_filter_contains(not_shared(bot_list), k);
            let j = choose|j: int| 0 <= j < rest.len() && rest[j] == discord_list[k];
            assert(offered[j].id == decimal(id as nat));
        }
    }
}

} // verus!
