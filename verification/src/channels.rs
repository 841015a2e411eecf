//! Creating and looking at channels.

use crate::effects::{Action, Event};
use crate::flow::{created, database_failed, success, Flow, Step, StepView};
use crate::guilds::{not_permitted, refuse_not_permitted};
use crate::model::{Channel, CreateChannel, Snowflake, Token};
use crate::reply::{Body, BodyView, Rejection, RejectionView};
use vstd::pervasive::unreached;
use vstd::prelude::*;

verus! {

pub const NO_GUILD: &'static str = "The requested guild does not exist.";

pub const NOT_OWNER: &'static str = "You are not the owner of this guild.";

pub const NO_CHANNEL: &'static str = "Channel does not exist or is not available.";

/// Where creating a channel stands, named after what is waited for.
pub enum CreateChannelFlow {
    User { guild_id: Snowflake, payload: CreateChannel },
    Guild { user_id: Snowflake, guild_id: Snowflake, payload: CreateChannel },
    Build,
    Commit { channel: Channel },
}

/// Where looking at a channel stands, named after what is waited for.
pub enum FetchChannelFlow {
    Channel { user_id: Snowflake },
    Member { channel: Channel },
}

pub open spec fn create_channel_start(
    guild_id: Snowflake,
    token: Token,
    payload: CreateChannel,
) -> StepView {
    StepView::Perform {
        flow: Flow::CreateChannel(CreateChannelFlow::User { guild_id, payload }),
        action: Action::FetchUser { user_id: token.user_id },
    }
}

/// The channel is stored if the guild is there and the user owns it.
pub open spec fn create_channel_next(flow: CreateChannelFlow, event: Event) -> StepView {
    match (flow, event) {
        (CreateChannelFlow::User { .. }, Event::User(None)) => database_failed(),
        (CreateChannelFlow::User { guild_id, payload }, Event::User(Some(user))) =>
            StepView::Perform {
            flow: Flow::CreateChannel(
                CreateChannelFlow::Guild { user_id: user.id, guild_id, payload },
            ),
            action: Action::FetchGuild { guild_id },
        },
        (CreateChannelFlow::Guild { .. }, Event::Guild(None)) => StepView::Refuse(
            RejectionView::BadRequest { message: NO_GUILD@ },
        ),
        (CreateChannelFlow::Guild { user_id, guild_id, payload }, Event::Guild(Some(guild))) => if
        guild.owner_id != user_id {
            StepView::Refuse(RejectionView::Forbidden { message: NOT_OWNER@ })
        } else {
            StepView::Perform {
                flow: Flow::CreateChannel(CreateChannelFlow::Build),
                action: Action::BuildChannel { payload, guild_id },
            }
        },
        (CreateChannelFlow::Build, Event::ChannelBuilt(channel)) => StepView::Perform {
            flow: Flow::CreateChannel(CreateChannelFlow::Commit { channel }),
            action: Action::CommitChannel { channel },
        },
        (CreateChannelFlow::Commit { .. }, Event::Written(false)) => database_failed(),
        (CreateChannelFlow::Commit { channel }, Event::Written(true)) => created(
            BodyView::Channel(channel),
        ),
        _ => arbitrary(),
    }
}

pub open spec fn create_channel_expects(flow: CreateChannelFlow, event: Event) -> bool {
    match flow {
        CreateChannelFlow::User { .. } => event is User,
        CreateChannelFlow::Guild { .. } => event is Guild,
        CreateChannelFlow::Build => event is ChannelBuilt,
        CreateChannelFlow::Commit { .. } => event is Written,
    }
}

/// Creates a channel in a guild of the user.
///
/// POST `/guilds/{guild_id}/channels`
pub fn create_channel(guild_id: Snowflake, token: Token, payload: CreateChannel) -> (step: Step)
    ensures
        step@ == create_channel_start(guild_id, token, payload),
{
    Step::Perform {
        flow: Flow::CreateChannel(CreateChannelFlow::User { guild_id, payload }),
        action: Action::FetchUser { user_id: token.user_id },
    }
}

pub(crate) fn create_channel_on(flow: CreateChannelFlow, event: Event) -> (step: Step)
    requires
        create_channel_expects(flow, event),
    ensures
        step@ == create_channel_next(flow, event),
{
    match (flow, event) {
        (CreateChannelFlow::User { .. }, Event::User(None)) => Step::database_failed(),
        (CreateChannelFlow::User { guild_id, payload }, Event::User(Some(user))) => Step::Perform {
            flow: Flow::CreateChannel(
                CreateChannelFlow::Guild { user_id: user.id, guild_id, payload },
            ),
            action: Action::FetchGuild { guild_id },
        },
        (CreateChannelFlow::Guild { .. }, Event::Guild(None)) => Step::Refuse(
            Rejection::bad_request(NO_GUILD),
        ),
        (CreateChannelFlow::Guild { user_id, guild_id, payload }, Event::Guild(Some(guild))) => {
            if guild.owner_id != user_id {
                Step::Refuse(Rejection::forbidden(NOT_OWNER))
            } else {
                Step::Perform {
                    flow: Flow::CreateChannel(CreateChannelFlow::Build),
                    action: Action::BuildChannel { payload, guild_id },
                }
            }
        },
        (CreateChannelFlow::Build, Event::ChannelBuilt(channel)) => Step::Perform {
            action: Action::CommitChannel { channel: channel.clone() },
            flow: Flow::CreateChannel(CreateChannelFlow::Commit { channel }),
        },
        (CreateChannelFlow::Commit { .. }, Event::Written(false)) => Step::database_failed(),
        (CreateChannelFlow::Commit { channel }, Event::Written(true)) => Step::created(
            Body::Channel(channel),
        ),
        _ => unreached(),
    }
}

pub open spec fn fetch_channel_start(channel_id: Snowflake, token: Token) -> StepView {
    StepView::Perform {
        flow: Flow::FetchChannel(FetchChannelFlow::Channel { user_id: token.user_id }),
        action: Action::FetchChannel { channel_id },
    }
}

/// Only a member of the channel's guild is shown it.
pub open spec fn fetch_channel_next(flow: FetchChannelFlow, event: Event) -> StepView {
    match (flow, event) {
        (FetchChannelFlow::Channel { .. }, Event::Channel(None)) => StepView::Refuse(
            RejectionView::BadRequest { message: NO_CHANNEL@ },
        ),
        (FetchChannelFlow::Channel { user_id }, Event::Channel(Some(channel))) =>
            StepView::Perform {
            flow: Flow::FetchChannel(FetchChannelFlow::Member { channel }),
            action: Action::FetchMember { user_id, guild_id: channel.guild_id },
        },
        (FetchChannelFlow::Member { .. }, Event::Member(None)) => not_permitted(),
        (FetchChannelFlow::Member { channel }, Event::Member(Some(_))) => success(
            BodyView::Channel(channel),
        ),
        _ => arbitrary(),
    }
}

pub open spec fn fetch_channel_expects(flow: FetchChannelFlow, event: Event) -> bool {
    match flow {
        FetchChannelFlow::Channel { .. } => event is Channel,
        FetchChannelFlow::Member { .. } => event is Member,
    }
}

/// Fetches a channel.
///
/// GET `/channels/{channel_id}`
pub fn fetch_channel(channel_id: Snowflake, token: Token) -> (step: Step)
    ensures
        step@ == fetch_channel_start(channel_id, token),
{
    Step::Perform {
        flow: Flow::FetchChannel(FetchChannelFlow::Channel { user_id: token.user_id }),
        action: Action::FetchChannel { channel_id },
    }
}

pub(crate) fn fetch_channel_on(flow: FetchChannelFlow, event: Event) -> (step: Step)
    requires
        fetch_channel_expects(flow, event),
    ensures
        step@ == fetch_channel_next(flow, event),
{
    match (flow, event) {
        (FetchChannelFlow::Channel { .. }, Event::Channel(None)) => Step::Refuse(
            Rejection::bad_request(NO_CHANNEL),
        ),
        (FetchChannelFlow::Channel { user_id }, Event::Channel(Some(channel))) => Step::Perform {
            action: Action::FetchMember { user_id, guild_id: channel.guild_id },
            flow: Flow::FetchChannel(FetchChannelFlow::Member { channel }),
        },
        (FetchChannelFlow::Member { .. }, Event::Member(None)) => refuse_not_permitted(),
        (FetchChannelFlow::Member { channel }, Event::Member(Some(_))) => Step::success(
            Body::Channel(channel),
        ),
        _ => unreached(),
    }
}

} // verus!
