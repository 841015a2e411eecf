//! How a handler runs.
//!
//! A handler is a sequence of actions with a decision after each. It is written as a state, a
//! `Flow`, that says what has been asked for and what is still needed of what came before. A
//! `Step` is what a decision comes to: one more action, or the answer to the request. Whoever
//! runs the handler performs the action and hands back the event that tells what came of it.

use crate::channels::{
    create_channel_expects, create_channel_next, create_channel_on, fetch_channel_expects,
    fetch_channel_next, fetch_channel_on, CreateChannelFlow, FetchChannelFlow,
};
use crate::effects::{Action, Event};
use crate::guilds::{
    create_guild_expects, create_guild_next, create_guild_on, fetch_guild_expects,
    fetch_guild_next, fetch_guild_on, fetch_self_guilds_next, fetch_self_guilds_on,
    CreateGuildFlow, FetchGuildFlow,
};
use crate::members::{
    fetch_member_next, fetch_member_on, fetch_member_self_next, fetch_member_self_on,
    FetchMemberFlow,
};
use crate::messages::{
    create_message_expects, create_message_next, create_message_on, CreateMessageFlow,
};
use crate::reply::{
    Body, BodyView, Rejection, RejectionView, Reply, ReplyView, Status, DATABASE_ERROR,
};
use crate::users::{
    user_auth_expects, user_auth_next, user_auth_on, user_create_expects, user_create_next,
    user_create_on, user_getself_next, user_getself_on, UserAuthFlow, UserCreateFlow,
};
use vstd::prelude::*;

verus! {

/// A handler that waits for an event.
pub enum Flow {
    CreateMessage(CreateMessageFlow),
    UserCreate(UserCreateFlow),
    UserAuth(UserAuthFlow),
    UserGetself,
    CreateGuild(CreateGuildFlow),
    CreateChannel(CreateChannelFlow),
    FetchGuild(FetchGuildFlow),
    FetchChannel(FetchChannelFlow),
    FetchMember(FetchMemberFlow),
    FetchMemberSelf,
    FetchSelfGuilds,
}

/// What a handler does next.
pub enum Step {
    /// Perform the action, and go on with what came of it.
    Perform { flow: Flow, action: Action },
    Answer(Reply),
    Refuse(Rejection),
}

pub enum StepView {
    Perform { flow: Flow, action: Action },
    Answer(ReplyView),
    Refuse(RejectionView),
}

impl View for Step {
    type V = StepView;

    open spec fn view(&self) -> StepView {
        match self {
            Step::Perform { flow, action } => StepView::Perform { flow: *flow, action: *action },
            Step::Answer(reply) => StepView::Answer(reply@),
            Step::Refuse(rejection) => StepView::Refuse(rejection@),
        }
    }
}

pub open spec fn success(body: BodyView) -> StepView {
    StepView::Answer(ReplyView { status: Status::Success, body })
}

pub open spec fn created(body: BodyView) -> StepView {
    StepView::Answer(ReplyView { status: Status::Created, body })
}

pub open spec fn database_failed() -> StepView {
    StepView::Refuse(RejectionView::InternalServerError { message: DATABASE_ERROR@ })
}

impl Step {
    pub(crate) fn success(body: Body) -> (step: Step)
        ensures
            step@ == success(body@),
    {
        Step::Answer(Reply { status: Status::Success, body })
    }

    pub(crate) fn created(body: Body) -> (step: Step)
        ensures
            step@ == created(body@),
    {
        Step::Answer(Reply { status: Status::Created, body })
    }

    pub(crate) fn database_failed() -> (step: Step)
        ensures
            step@ == database_failed(),
    {
        Step::Refuse(Rejection::internal_server_error(DATABASE_ERROR))
    }
}

/// `event` is of the kind that `flow` waits for.
pub open spec fn waits_for(flow: Flow, event: Event) -> bool {
    match flow {
        Flow::CreateMessage(flow) => create_message_expects(flow, event),
        Flow::UserCreate(flow) => user_create_expects(flow, event),
        Flow::UserAuth(flow) => user_auth_expects(flow, event),
        Flow::UserGetself => event is User,
        Flow::CreateGuild(flow) => create_guild_expects(flow, event),
        Flow::CreateChannel(flow) => create_channel_expects(flow, event),
        Flow::FetchGuild(flow) => fetch_guild_expects(flow, event),
        Flow::FetchChannel(flow) => fetch_channel_expects(flow, event),
        Flow::FetchMember(_) => event is Member,
        Flow::FetchMemberSelf => event is Member,
        Flow::FetchSelfGuilds => event is Guilds,
    }
}

/// Tells whether `event` is of the kind that `flow` waits for.
pub fn is_awaited(flow: &Flow, event: &Event) -> (awaited: bool)
    ensures
        awaited == waits_for(*flow, *event),
{
    match (flow, event) {
        (Flow::CreateMessage(CreateMessageFlow::Channel { .. }), Event::Channel(_)) => true,
        (Flow::CreateMessage(CreateMessageFlow::Member { .. }), Event::Member(_)) => true,
        (Flow::CreateMessage(CreateMessageFlow::Build), Event::MessageBuilt(_)) => true,
        (Flow::CreateMessage(CreateMessageFlow::Commit { .. }), Event::Written(_)) => true,
        (Flow::CreateMessage(CreateMessageFlow::Dispatch { .. }), Event::Dispatched) => true,
        (Flow::UserCreate(UserCreateFlow::Build { .. }), Event::UserBuilt(_)) => true,
        (Flow::UserCreate(UserCreateFlow::Namesake { .. }), Event::User(_)) => true,
        (Flow::UserCreate(UserCreateFlow::Hash { .. }), Event::PasswordHashed(_)) => true,
        (Flow::UserCreate(UserCreateFlow::CommitUser { .. }), Event::Written(_)) => true,
        (Flow::UserCreate(UserCreateFlow::CommitCredentials { .. }), Event::Written(_)) => true,
        (Flow::UserAuth(UserAuthFlow::Validate), Event::CredentialsValidated(_)) => true,
        (Flow::UserAuth(UserAuthFlow::Issue { .. }), Event::TokenIssued(_)) => true,
        (Flow::UserGetself, Event::User(_)) => true,
        (Flow::CreateGuild(CreateGuildFlow::Build { .. }), Event::GuildBuilt(_)) => true,
        (Flow::CreateGuild(CreateGuildFlow::Commit { .. }), Event::Written(_)) => true,
        (Flow::CreateGuild(CreateGuildFlow::AddMember { .. }), Event::Written(_)) => true,
        (Flow::CreateChannel(CreateChannelFlow::User { .. }), Event::User(_)) => true,
        (Flow::CreateChannel(CreateChannelFlow::Guild { .. }), Event::Guild(_)) => true,
        (Flow::CreateChannel(CreateChannelFlow::Build), Event::ChannelBuilt(_)) => true,
        (Flow::CreateChannel(CreateChannelFlow::Commit { .. }), Event::Written(_)) => true,
        (Flow::FetchGuild(FetchGuildFlow::Member { .. }), Event::Member(_)) => true,
        (Flow::FetchGuild(FetchGuildFlow::Guild), Event::Guild(_)) => true,
        (Flow::FetchChannel(FetchChannelFlow::Channel { .. }), Event::Channel(_)) => true,
        (Flow::FetchChannel(FetchChannelFlow::Member { .. }), Event::Member(_)) => true,
        (Flow::FetchMember(_), Event::Member(_)) => true,
        (Flow::FetchMemberSelf, Event::Member(_)) => true,
        (Flow::FetchSelfGuilds, Event::Guilds(_)) => true,
        _ => false,
    }
}

/// What `flow` comes to when it is told `event`.
pub open spec fn next(flow: Flow, event: Event) -> StepView {
    match flow {
        Flow::CreateMessage(flow) => create_message_next(flow, event),
        Flow::UserCreate(flow) => user_create_next(flow, event),
        Flow::UserAuth(flow) => user_auth_next(flow, event),
        Flow::UserGetself => user_getself_next(event),
        Flow::CreateGuild(flow) => create_guild_next(flow, event),
        Flow::CreateChannel(flow) => create_channel_next(flow, event),
        Flow::FetchGuild(flow) => fetch_guild_next(flow, event),
        Flow::FetchChannel(flow) => fetch_channel_next(flow, event),
        Flow::FetchMember(flow) => fetch_member_next(flow, event),
        Flow::FetchMemberSelf => fetch_member_self_next(event),
        Flow::FetchSelfGuilds => fetch_self_guilds_next(event),
    }
}

/// Goes on with a handler that has been waiting for `event`.
pub fn advance(flow: Flow, event: Event) -> (step: Step)
    requires
        waits_for(flow, event),
    ensures
        step@ == next(flow, event),
{
    match flow {
        Flow::CreateMessage(flow) => create_message_on(flow, event),
        Flow::UserCreate(flow) => user_create_on(flow, event),
        Flow::UserAuth(flow) => user_auth_on(flow, event),
        Flow::UserGetself => user_getself_on(event),
        Flow::CreateGuild(flow) => create_guild_on(flow, event),
        Flow::CreateChannel(flow) => create_channel_on(flow, event),
        Flow::FetchGuild(flow) => fetch_guild_on(flow, event),
        Flow::FetchChannel(flow) => fetch_channel_on(flow, event),
        Flow::FetchMember(flow) => fetch_member_on(flow, event),
        Flow::FetchMemberSelf => fetch_member_self_on(event),
        Flow::FetchSelfGuilds => fetch_self_guilds_on(event),
    }
}

/// An answer holds the body that it is made with, whatever that is, and a failure of the database
/// is told as one.
pub proof fn law_answers_hold_their_body(body: BodyView)
    ensures
        success(body) == StepView::Answer(ReplyView { status: Status::Success, body }),
        created(body) == StepView::Answer(ReplyView { status: Status::Created, body }),
        database_failed() == StepView::Refuse(
            RejectionView::InternalServerError {
                message: "A database transaction error occured."@,
            },
        ),
{
}

/// A step shows what it performs, answers or refuses with, unchanged.
pub proof fn law_steps_show_what_they_hold(
    flow: Flow,
    action: Action,
    reply: Reply,
    rejection: Rejection,
)
    ensures
        (Step::Perform { flow, action })@ == (StepView::Perform { flow, action }),
        Step::Answer(reply)@ == StepView::Answer(reply@),
        Step::Refuse(rejection)@ == StepView::Refuse(rejection@),
{
}

/// A handler is run by its decisions alone: it takes exactly the events that it waits for, and
/// what it does next is what the decision on the event comes to.
pub proof fn law_handlers_are_run_by_their_decisions(
    flow: Flow,
    event: Event,
    awaited: bool,
    step: Step,
)
    requires
        call_ensures(is_awaited, (&flow, &event), awaited),
        call_ensures(advance, (flow, event), step),
    ensures
        awaited <==> waits_for(flow, event),
        waits_for(flow, event) ==> call_requires(advance, (flow, event)),
        step@ == next(flow, event),
{
}

} // verus!
