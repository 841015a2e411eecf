//! From a request that passed its checks to the handler that answers it.

use crate::channels::{create_channel, create_channel_start, fetch_channel, fetch_channel_start};
use crate::effects::Action;
use crate::flow::{Step, StepView};
use crate::guilds::{
    create_guild, create_guild_start, fetch_guild, fetch_guild_start, fetch_self_guilds,
    fetch_self_guilds_start,
};
use crate::members::{
    fetch_member, fetch_member_self, fetch_member_self_start, fetch_member_start,
};
use crate::messages::{create_message, create_message_start};
use crate::model::{
    CreateChannel, CreateGuild, CreateMessage, CreateUser, Credentials, Snowflake, Token,
};
use crate::path::segments;
use crate::routes::{
    is_first_match, leads_to, routes, target_of, BodyKind, Endpoint, Guard, Method, Target,
};
use crate::users::{
    user_auth, user_auth_start, user_create, user_create_start, user_getself, user_getself_start,
};
use vstd::prelude::*;

verus! {

/// What the body of a request said.
#[derive(Debug, PartialEq, Eq)]
pub enum Payload {
    Nothing,
    Message(CreateMessage),
    User(CreateUser),
    Login(Credentials),
    Guild(CreateGuild),
    Channel(CreateChannel),
}

pub open spec fn kind_of(payload: Payload) -> BodyKind {
    match payload {
        Payload::Nothing => BodyKind::Nothing,
        Payload::Message(_) => BodyKind::Message,
        Payload::User(_) => BodyKind::User,
        Payload::Login(_) => BodyKind::Login,
        Payload::Guild(_) => BodyKind::Guild,
        Payload::Channel(_) => BodyKind::Channel,
    }
}

/// How the handler of `endpoint` starts. There is no way to start it without a token that it
/// needs, or with the body of another endpoint.
pub open spec fn start(endpoint: Endpoint, token: Option<Token>, payload: Payload) -> Option<
    StepView,
> {
    match (endpoint, token, payload) {
        (Endpoint::CreateMessage { channel_id }, Some(token), Payload::Message(payload)) => Some(
            create_message_start(channel_id, token, payload),
        ),
        (Endpoint::CreateUser, _, Payload::User(payload)) => Some(user_create_start(payload)),
        (Endpoint::Login, _, Payload::Login(credentials)) => Some(user_auth_start(credentials)),
        (Endpoint::QuerySelf, Some(token), Payload::Nothing) => Some(user_getself_start(token)),
        (Endpoint::CreateChannel { guild_id }, Some(token), Payload::Channel(payload)) => Some(
            create_channel_start(guild_id, token, payload),
        ),
        (Endpoint::FetchChannel { channel_id }, Some(token), Payload::Nothing) => Some(
            fetch_channel_start(channel_id, token),
        ),
        (Endpoint::CreateGuild, Some(token), Payload::Guild(payload)) => Some(
            create_guild_start(token, payload),
        ),
        (Endpoint::FetchGuild { guild_id }, Some(token), Payload::Nothing) => Some(
            fetch_guild_start(guild_id, token),
        ),
        (Endpoint::FetchMember { guild_id, member_id }, Some(token), Payload::Nothing) => Some(
            fetch_member_start(guild_id, member_id, token),
        ),
        (Endpoint::FetchMemberSelf { guild_id }, Some(token), Payload::Nothing) => Some(
            fetch_member_self_start(guild_id, token),
        ),
        (Endpoint::FetchSelfGuilds, Some(token), Payload::Nothing) => Some(
            fetch_self_guilds_start(token),
        ),
        _ => None,
    }
}

/// Starts the handler of an endpoint.
pub fn begin(endpoint: Endpoint, token: Option<Token>, payload: Payload) -> (step: Option<Step>)
    ensures
        match start(endpoint, token, payload) {
            Some(first) => step matches Some(step) && step@ == first,
            None => step is None,
        },
{
    match (endpoint, token, payload) {
        (Endpoint::CreateMessage { channel_id }, Some(token), Payload::Message(payload)) => Some(
            create_message(channel_id, token, payload),
        ),
        (Endpoint::CreateUser, _, Payload::User(payload)) => Some(user_create(payload)),
        (Endpoint::Login, _, Payload::Login(credentials)) => Some(user_auth(credentials)),
        (Endpoint::QuerySelf, Some(token), Payload::Nothing) => Some(user_getself(token)),
        (Endpoint::CreateChannel { guild_id }, Some(token), Payload::Channel(payload)) => Some(
            create_channel(guild_id, token, payload),
        ),
        (Endpoint::FetchChannel { channel_id }, Some(token), Payload::Nothing) => Some(
            fetch_channel(channel_id, token),
        ),
        (Endpoint::CreateGuild, Some(token), Payload::Guild(payload)) => Some(
            create_guild(token, payload),
        ),
        (Endpoint::FetchGuild { guild_id }, Some(token), Payload::Nothing) => Some(
            fetch_guild(guild_id, token),
        ),
        (Endpoint::FetchMember { guild_id, member_id }, Some(token), Payload::Nothing) => Some(
            fetch_member(guild_id, member_id, token),
        ),
        (Endpoint::FetchMemberSelf { guild_id }, Some(token), Payload::Nothing) => Some(
            fetch_member_self(guild_id, token),
        ),
        (Endpoint::FetchSelfGuilds, Some(token), Payload::Nothing) => Some(
            fetch_self_guilds(token),
        ),
        _ => None,
    }
}

/// Everything but registering and logging in needs a token, sending a message is all that has a
/// rate limit, and exactly the requests that post have a body.
pub proof fn law_guards(path: Seq<char>, target: Target)
    requires
        leads_to(path, Some(target)),
    ensures
        target.guard == Guard::Open <==> (target.endpoint is CreateUser || target.endpoint
            is Login),
        target.guard == Guard::TokenAndLimit <==> target.endpoint is CreateMessage,
        target.method == Method::Post <==> target.body != BodyKind::Nothing,
        target.method == Method::Post || target.method == Method::Get,
{
    let i = choose|i: int|
        #[trigger] is_first_match(i, segments(path)) && target == target_of(
            routes()[i],
            segments(path),
        );
    assert(is_first_match(i, segments(path)));
}

/// A request that passed the checks of its route can be handled: the handler starts with any
/// body of the route's kind, and with a token where the route asks for one.
pub proof fn law_targets_can_start(
    path: Seq<char>,
    target: Target,
    token: Option<Token>,
    payload: Payload,
)
    requires
        leads_to(path, Some(target)),
    ensures
        start(target.endpoint, token, payload) is Some <==> kind_of(payload) == target.body && (
        target.guard == Guard::Open || token is Some),
{
    let i = choose|i: int|
        #[trigger] is_first_match(i, segments(path)) && target == target_of(
            routes()[i],
            segments(path),
        );
    assert(is_first_match(i, segments(path)));
}

/// What kind of body a request had is told by what the body said.
pub proof fn law_kinds_of_bodies(payload: Payload)
    ensures
        kind_of(payload) == BodyKind::Nothing <==> payload is Nothing,
        kind_of(payload) == BodyKind::Message <==> payload is Message,
        kind_of(payload) == BodyKind::User <==> payload is User,
        kind_of(payload) == BodyKind::Login <==> payload is Login,
        kind_of(payload) == BodyKind::Guild <==> payload is Guild,
        kind_of(payload) == BodyKind::Channel <==> payload is Channel,
{
}

/// The handler that starts for an endpoint is the endpoint's own, and it is given the very ids
/// of the endpoint, the token and the payload. It is the one that the function of its name
/// starts.
pub proof fn law_endpoints_start_their_handlers(
    id: Snowflake,
    member_id: Snowflake,
    token: Token,
    any: Option<Token>,
    message: CreateMessage,
    user: CreateUser,
    credentials: Credentials,
    guild: CreateGuild,
    channel: CreateChannel,
    step: Step,
)
    ensures
        call_ensures(create_message, (id, token, message), step) ==> start(
            Endpoint::CreateMessage { channel_id: id },
            Some(token),
            Payload::Message(message),
        ) == Some(step@),
        call_ensures(user_create, (user,), step) ==> start(
            Endpoint::CreateUser,
            any,
            Payload::User(user),
        ) == Some(step@),
        call_ensures(user_auth, (credentials,), step) ==> start(
            Endpoint::Login,
            any,
            Payload::Login(credentials),
        ) == Some(step@),
        call_ensures(user_getself, (token,), step) ==> start(
            Endpoint::QuerySelf,
            Some(token),
            Payload::Nothing,
        ) == Some(step@),
        call_ensures(create_channel, (id, token, channel), step) ==> start(
            Endpoint::CreateChannel { guild_id: id },
            Some(token),
            Payload::Channel(channel),
        ) == Some(step@),
        call_ensures(fetch_channel, (id, token), step) ==> start(
            Endpoint::FetchChannel { channel_id: id },
            Some(token),
            Payload::Nothing,
        ) == Some(step@),
        call_ensures(create_guild, (token, guild), step) ==> start(
            Endpoint::CreateGuild,
            Some(token),
            Payload::Guild(guild),
        ) == Some(step@),
        call_ensures(fetch_guild, (id, token), step) ==> start(
            Endpoint::FetchGuild { guild_id: id },
            Some(token),
            Payload::Nothing,
        ) == Some(step@),
        call_ensures(fetch_member, (id, member_id, token), step) ==> start(
            Endpoint::FetchMember { guild_id: id, member_id },
            Some(token),
            Payload::Nothing,
        ) == Some(step@),
        call_ensures(fetch_member_self, (id, token), step) ==> start(
            Endpoint::FetchMemberSelf { guild_id: id },
            Some(token),
            Payload::Nothing,
        ) == Some(step@),
        call_ensures(fetch_self_guilds, (token,), step) ==> start(
            Endpoint::FetchSelfGuilds,
            Some(token),
            Payload::Nothing,
        ) == Some(step@),
{
}

/// The first thing that a handler does is on what the endpoint and the token name: it looks up
/// the channel, the guild or the member of the path or the user of the token, or it makes or
/// checks what the body asks for. Without a token that it needs, or with the body of another
/// endpoint, it does not start.
pub proof fn law_first_actions(
    endpoint: Endpoint,
    token: Option<Token>,
    payload: Payload,
    step: Option<Step>,
)
    requires
        call_ensures(begin, (endpoint, token, payload), step),
    ensures
        match step {
            None => start(endpoint, token, payload) is None,
            Some(step) => start(endpoint, token, payload) == Some(step@),
        },
        step is Some <==> match endpoint {
            Endpoint::CreateMessage { .. } => token is Some && payload is Message,
            Endpoint::CreateUser => payload is User,
            Endpoint::Login => payload is Login,
            Endpoint::CreateChannel { .. } => token is Some && payload is Channel,
            Endpoint::CreateGuild => token is Some && payload is Guild,
            _ => token is Some && payload is Nothing,
        },
        step matches Some(step) ==> step@ is Perform && step@->action == match endpoint {
            Endpoint::CreateMessage { channel_id } => Action::FetchChannel { channel_id },
            Endpoint::CreateUser => Action::BuildUser { payload: payload->User_0 },
            Endpoint::Login => Action::ValidateCredentials { credentials: payload->Login_0 },
            Endpoint::QuerySelf => Action::FetchUser { user_id: token->0.user_id },
            Endpoint::CreateChannel { .. } => Action::FetchUser { user_id: token->0.user_id },
            Endpoint::FetchChannel { channel_id } => Action::FetchChannel { channel_id },
            Endpoint::CreateGuild => Action::BuildGuild {
                payload: payload->Guild_0,
                owner_id: token->0.user_id,
            },
            Endpoint::FetchGuild { guild_id } => Action::FetchMember {
                user_id: token->0.user_id,
                guild_id,
            },
            Endpoint::FetchMember { guild_id, member_id } => Action::FetchMember {
                user_id: member_id,
                guild_id,
            },
            Endpoint::FetchMemberSelf { guild_id } => Action::FetchMember {
                user_id: token->0.user_id,
                guild_id,
            },
            Endpoint::FetchSelfGuilds => Action::FetchGuildsOf { user_id: token->0.user_id },
        },
{
}

} // verus!
