//! Creating and looking at guilds.

use crate::effects::{Action, Event};
use crate::flow::{created, database_failed, success, Flow, Step, StepView};
use crate::model::{CreateGuild, Guild, Snowflake, Token};
use crate::reply::{Body, BodyView, Rejection, RejectionView};
use vstd::pervasive::unreached;
use vstd::prelude::*;

verus! {

/// The answer to a user who asks for something in a guild that they are no member of.
pub const NOT_PERMITTED: &'static str = "Not permitted to view resource.";

/// Where creating a guild stands, named after what is waited for.
pub enum CreateGuildFlow {
    Build { user_id: Snowflake },
    Commit { guild: Guild, user_id: Snowflake },
    AddMember { guild: Guild },
}

/// Where looking at a guild stands, named after what is waited for.
pub enum FetchGuildFlow {
    Member { guild_id: Snowflake },
    Guild,
}

pub open spec fn not_permitted() -> StepView {
    StepView::Refuse(RejectionView::Forbidden { message: NOT_PERMITTED@ })
}

pub(crate) fn refuse_not_permitted() -> (step: Step)
    ensures
        step@ == not_permitted(),
{
    Step::Refuse(Rejection::forbidden(NOT_PERMITTED))
}

pub open spec fn create_guild_start(token: Token, payload: CreateGuild) -> StepView {
    StepView::Perform {
        flow: Flow::CreateGuild(CreateGuildFlow::Build { user_id: token.user_id }),
        action: Action::BuildGuild { payload, owner_id: token.user_id },
    }
}

/// The guild is stored, and the user who creates it becomes its first member.
pub open spec fn create_guild_next(flow: CreateGuildFlow, event: Event) -> StepView {
    match (flow, event) {
        (CreateGuildFlow::Build { user_id }, Event::GuildBuilt(guild)) => StepView::Perform {
            flow: Flow::CreateGuild(CreateGuildFlow::Commit { guild, user_id }),
            action: Action::CommitGuild { guild },
        },
        (CreateGuildFlow::Commit { .. }, Event::Written(false)) => database_failed(),
        (CreateGuildFlow::Commit { guild, user_id }, Event::Written(true)) => StepView::Perform {
            flow: Flow::CreateGuild(CreateGuildFlow::AddMember { guild }),
            action: Action::AddMember { guild, user_id },
        },
        (CreateGuildFlow::AddMember { .. }, Event::Written(false)) => database_failed(),
        (CreateGuildFlow::AddMember { guild }, Event::Written(true)) => created(
            BodyView::Guild(guild),
        ),
        _ => arbitrary(),
    }
}

pub open spec fn create_guild_expects(flow: CreateGuildFlow, event: Event) -> bool {
    match flow {
        CreateGuildFlow::Build { .. } => event is GuildBuilt,
        CreateGuildFlow::Commit { .. } => event is Written,
        CreateGuildFlow::AddMember { .. } => event is Written,
    }
}

/// Creates a guild that the user owns.
///
/// POST `/guilds`
pub fn create_guild(token: Token, payload: CreateGuild) -> (step: Step)
    ensures
        step@ == create_guild_start(token, payload),
{
    Step::Perform {
        flow: Flow::CreateGuild(CreateGuildFlow::Build { user_id: token.user_id }),
        action: Action::BuildGuild { payload, owner_id: token.user_id },
    }
}

pub(crate) fn create_guild_on(flow: CreateGuildFlow, event: Event) -> (step: Step)
    requires
        create_guild_expects(flow, event),
    ensures
        step@ == create_guild_next(flow, event),
{
    match (flow, event) {
        (CreateGuildFlow::Build { user_id }, Event::GuildBuilt(guild)) => Step::Perform {
            action: Action::CommitGuild { guild: guild.clone() },
            flow: Flow::CreateGuild(CreateGuildFlow::Commit { guild, user_id }),
        },
        (CreateGuildFlow::Commit { .. }, Event::Written(false)) => Step::database_failed(),
        (CreateGuildFlow::Commit { guild, user_id }, Event::Written(true)) => Step::Perform {
            action: Action::AddMember { guild: guild.clone(), user_id },
            flow: Flow::CreateGuild(CreateGuildFlow::AddMember { guild }),
        },
        (CreateGuildFlow::AddMember { .. }, Event::Written(false)) => Step::database_failed(),
        (CreateGuildFlow::AddMember { guild }, Event::Written(true)) => Step::created(
            Body::Guild(guild),
        ),
        _ => unreached(),
    }
}

pub open spec fn fetch_guild_start(guild_id: Snowflake, token: Token) -> StepView {
    StepView::Perform {
        flow: Flow::FetchGuild(FetchGuildFlow::Member { guild_id }),
        action: Action::FetchMember { user_id: token.user_id, guild_id },
    }
}

/// Only a member of the guild is shown it.
pub open spec fn fetch_guild_next(flow: FetchGuildFlow, event: Event) -> StepView {
    match (flow, event) {
        (FetchGuildFlow::Member { .. }, Event::Member(None)) => not_permitted(),
        (FetchGuildFlow::Member { guild_id }, Event::Member(Some(_))) => StepView::Perform {
            flow: Flow::FetchGuild(FetchGuildFlow::Guild),
            action: Action::FetchGuild { guild_id },
        },
        (FetchGuildFlow::Guild, Event::Guild(None)) => database_failed(),
        (FetchGuildFlow::Guild, Event::Guild(Some(guild))) => success(BodyView::Guild(guild)),
        _ => arbitrary(),
    }
}

pub open spec fn fetch_guild_expects(flow: FetchGuildFlow, event: Event) -> bool {
    match flow {
        FetchGuildFlow::Member { .. } => event is Member,
        FetchGuildFlow::Guild => event is Guild,
    }
}

/// Fetches a guild.
///
/// GET `/guilds/{guild_id}`
pub fn fetch_guild(guild_id: Snowflake, token: Token) -> (step: Step)
    ensures
        step@ == fetch_guild_start(guild_id, token),
{
    Step::Perform {
        flow: Flow::FetchGuild(FetchGuildFlow::Member { guild_id }),
        action: Action::FetchMember { user_id: token.user_id, guild_id },
    }
}

pub(crate) fn fetch_guild_on(flow: FetchGuildFlow, event: Event) -> (step: Step)
    requires
        fetch_guild_expects(flow, event),
    ensures
        step@ == fetch_guild_next(flow, event),
{
    match (flow, event) {
        (FetchGuildFlow::Member { .. }, Event::Member(None)) => refuse_not_permitted(),
        (FetchGuildFlow::Member { guild_id }, Event::Member(Some(_))) => Step::Perform {
            flow: Flow::FetchGuild(FetchGuildFlow::Guild),
            action: Action::FetchGuild { guild_id },
        },
        (FetchGuildFlow::Guild, Event::Guild(None)) => Step::database_failed(),
        (FetchGuildFlow::Guild, Event::Guild(Some(guild))) => Step::success(Body::Guild(guild)),
        _ => unreached(),
    }
}

pub open spec fn fetch_self_guilds_start(token: Token) -> StepView {
    StepView::Perform {
        flow: Flow::FetchSelfGuilds,
        action: Action::FetchGuildsOf { user_id: token.user_id },
    }
}

pub open spec fn fetch_self_guilds_next(event: Event) -> StepView {
    match event {
        Event::Guilds(None) => database_failed(),
        Event::Guilds(Some(guilds)) => success(BodyView::Guilds(guilds@)),
        _ => arbitrary(),
    }
}

/// Fetches the guilds of the user who asks.
///
/// GET `/users/@self/guilds`
pub fn fetch_self_guilds(token: Token) -> (step: Step)
    ensures
        step@ == fetch_self_guilds_start(token),
{
    Step::Perform {
        flow: Flow::FetchSelfGuilds,
        action: Action::FetchGuildsOf { user_id: token.user_id },
    }
}

pub(crate) fn fetch_self_guilds_on(event: Event) -> (step: Step)
    requires
        event is Guilds,
    ensures
        step@ == fetch_self_guilds_next(event),
{
    match event {
        Event::Guilds(None) => Step::database_failed(),
        Event::Guilds(Some(guilds)) => Step::success(Body::Guilds(guilds)),
        _ => unreached(),
    }
}

} // verus!
