//! Sending messages.

use crate::effects::{Action, Event};
use crate::flow::{created, database_failed, Flow, Step, StepView};
use crate::model::{CreateMessage, GatewayEvent, Message, Snowflake, Token, UserLike};
use crate::reply::{Body, BodyView};
use vstd::pervasive::unreached;
use vstd::prelude::*;

verus! {

/// Where sending a message stands, named after what is waited for.
pub enum CreateMessageFlow {
    Channel { channel_id: Snowflake, user_id: Snowflake, payload: CreateMessage },
    Member { channel_id: Snowflake, payload: CreateMessage },
    Build,
    Commit { message: Message },
    Dispatch { message: Message },
}

pub open spec fn create_message_start(
    channel_id: Snowflake,
    token: Token,
    payload: CreateMessage,
) -> StepView {
    StepView::Perform {
        flow: Flow::CreateMessage(
            CreateMessageFlow::Channel { channel_id, user_id: token.user_id, payload },
        ),
        action: Action::FetchChannel { channel_id },
    }
}

/// The message is stored if the channel is there and the user is a member of its guild. Once it
/// is stored, the connected clients are told, and the request is answered with the message.
pub open spec fn create_message_next(flow: CreateMessageFlow, event: Event) -> StepView {
    match (flow, event) {
        (CreateMessageFlow::Channel { .. }, Event::Channel(None)) => database_failed(),
        (
            CreateMessageFlow::Channel { channel_id, user_id, payload },
            Event::Channel(Some(channel)),
        ) => StepView::Perform {
            flow: Flow::CreateMessage(CreateMessageFlow::Member { channel_id, payload }),
            action: Action::FetchMember { user_id, guild_id: channel.guild_id },
        },
        (CreateMessageFlow::Member { .. }, Event::Member(None)) => database_failed(),
        (CreateMessageFlow::Member { channel_id, payload }, Event::Member(Some(member))) =>
            StepView::Perform {
            flow: Flow::CreateMessage(CreateMessageFlow::Build),
            action: Action::BuildMessage { author: UserLike::Member(member), channel_id, payload },
        },
        (CreateMessageFlow::Build, Event::MessageBuilt(message)) => StepView::Perform {
            flow: Flow::CreateMessage(CreateMessageFlow::Commit { message }),
            action: Action::CommitMessage { message },
        },
        (CreateMessageFlow::Commit { .. }, Event::Written(false)) => database_failed(),
        (CreateMessageFlow::Commit { message }, Event::Written(true)) => StepView::Perform {
            flow: Flow::CreateMessage(CreateMessageFlow::Dispatch { message }),
            action: Action::Dispatch { event: GatewayEvent::MessageCreate(message) },
        },
        (CreateMessageFlow::Dispatch { message }, Event::Dispatched) => created(
            BodyView::Message(message),
        ),
        _ => arbitrary(),
    }
}

pub open spec fn create_message_expects(flow: CreateMessageFlow, event: Event) -> bool {
    match flow {
        CreateMessageFlow::Channel { .. } => event is Channel,
        CreateMessageFlow::Member { .. } => event is Member,
        CreateMessageFlow::Build => event is MessageBuilt,
        CreateMessageFlow::Commit { .. } => event is Written,
        CreateMessageFlow::Dispatch { .. } => event is Dispatched,
    }
}

/// Sends a new message.
///
/// POST `/channels/{channel_id}/messages`
pub fn create_message(channel_id: Snowflake, token: Token, payload: CreateMessage) -> (step: Step)
    ensures
        step@ == create_message_start(channel_id, token, payload),
{
    Step::Perform {
        flow: Flow::CreateMessage(
            CreateMessageFlow::Channel { channel_id, user_id: token.user_id, payload },
        ),
        action: Action::FetchChannel { channel_id },
    }
}

pub(crate) fn create_message_on(flow: CreateMessageFlow, event: Event) -> (step: Step)
    requires
        create_message_expects(flow, event),
    ensures
        step@ == create_message_next(flow, event),
{
    match (flow, event) {
        (CreateMessageFlow::Channel { .. }, Event::Channel(None)) => Step::database_failed(),
        (
            CreateMessageFlow::Channel { channel_id, user_id, payload },
            Event::Channel(Some(channel)),
        ) => Step::Perform {
            flow: Flow::CreateMessage(CreateMessageFlow::Member { channel_id, payload }),
            action: Action::FetchMember { user_id, guild_id: channel.guild_id },
        },
        (CreateMessageFlow::Member { .. }, Event::Member(None)) => Step::database_failed(),
        (CreateMessageFlow::Member { channel_id, payload }, Event::Member(Some(member))) =>
            Step::Perform {
            flow: Flow::CreateMessage(CreateMessageFlow::Build),
            action: Action::BuildMessage { author: UserLike::Member(member), channel_id, payload },
        },
        (CreateMessageFlow::Build, Event::MessageBuilt(message)) => Step::Perform {
            action: Action::CommitMessage { message: message.clone() },
            flow: Flow::CreateMessage(CreateMessageFlow::Commit { message }),
        },
        (CreateMessageFlow::Commit { .. }, Event::Written(false)) => Step::database_failed(),
        (CreateMessageFlow::Commit { message }, Event::Written(true)) => Step::Perform {
            action: Action::Dispatch { event: GatewayEvent::MessageCreate(message.clone()) },
            flow: Flow::CreateMessage(CreateMessageFlow::Dispatch { message }),
        },
        (CreateMessageFlow::Dispatch { message }, Event::Dispatched) => Step::created(
            Body::Message(message),
        ),
        _ => unreached(),
    }
}

} // verus!
