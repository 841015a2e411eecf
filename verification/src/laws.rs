//! What holds of handlers from their first step to the answer, whatever they are told.

use crate::admission::TOKEN_KEY;
use crate::channels::{
    create_channel_start, fetch_channel_start, CreateChannelFlow, FetchChannelFlow,
};
use crate::effects::{answers, is_write, Action, Event};
use crate::flow::{database_failed, next, waits_for, Flow, StepView};
use crate::guilds::{
    create_guild_start, fetch_guild_start, fetch_self_guilds_start, CreateGuildFlow,
    FetchGuildFlow,
};
use crate::handlers::{start, Payload};
use crate::members::{fetch_member_self_start, fetch_member_start, FetchMemberFlow};
use crate::messages::{create_message_start, CreateMessageFlow};
use crate::model::{
    Channel, CreateChannel, CreateGuild, CreateMessage, CreateUser, Credentials, GatewayEvent,
    Guild, Member, Message, Snowflake, StoredCredentials, Token, User, UserLike,
};
use crate::reply::{BodyView, RejectionView, ReplyView, Status};
use crate::routes::Endpoint;
use crate::secret::{secret_text, SecretToken};
use crate::users::{
    user_auth_start, user_create_start, user_getself_start, UserAuthFlow, UserCreateFlow,
};
use vstd::prelude::*;

verus! {

/// What was done for a request, and what it came to.
pub struct Run {
    pub performed: Seq<Action>,
    pub end: StepView,
}

/// A handler that goes on from `step` and is told `events` one after the other. What it is told
/// after its answer is not heard.
pub open spec fn run(step: StepView, events: Seq<Event>) -> Run
    decreases events.len(),
{
    match step {
        StepView::Perform { flow, action } => if events.len() == 0 {
            Run { performed: seq![action], end: step }
        } else {
            let rest = run(next(flow, events[0]), events.skip(1));
            Run { performed: seq![action] + rest.performed, end: rest.end }
        },
        _ => Run { performed: seq![], end: step },
    }
}

/// Each of `events` tells what came of the action that was performed before it.
pub open spec fn is_told(step: StepView, events: Seq<Event>) -> bool
    decreases events.len(),
{
    events.len() > 0 ==> match step {
        StepView::Perform { flow, action } => answers(events[0], action) && is_told(
            next(flow, events[0]),
            events.skip(1),
        ),
        _ => false,
    }
}

/// A step that performs an action waits for what answers that action.
pub open spec fn is_sound(step: StepView) -> bool {
    match step {
        StepView::Perform { flow, action } => forall|event: Event| #[trigger]
            waits_for(flow, event) <==> answers(event, action),
        _ => true,
    }
}

proof fn lemma_is_sound(step: StepView, events: Seq<Event>)
    requires
        is_sound(step),
        is_told(step, events),
    ensures
        is_sound(run(step, events).end),
    decreases events.len(),
{
    if let StepView::Perform { flow, action } = step {
        if events.len() > 0 {
            assert(waits_for(flow, events[0]));
            lemma_is_sound(next(flow, events[0]), events.skip(1));
        }
    }
}

/// However far a handler has come, it waits for what tells the outcome of the action that it
/// asked for last, and for nothing else.
pub proof fn law_actions_are_awaited(
    endpoint: Endpoint,
    token: Option<Token>,
    payload: Payload,
    events: Seq<Event>,
)
    requires
        start(endpoint, token, payload) matches Some(step) && is_told(step, events),
    ensures
        is_sound(run(start(endpoint, token, payload)->0, events).end),
{
    lemma_is_sound(start(endpoint, token, payload)->0, events);
}

/// How many events a handler hears at most before it answers.
pub open spec fn remaining(flow: Flow) -> nat {
    match flow {
        Flow::CreateMessage(CreateMessageFlow::Channel { .. }) => 5,
        Flow::CreateMessage(CreateMessageFlow::Member { .. }) => 4,
        Flow::CreateMessage(CreateMessageFlow::Build) => 3,
        Flow::CreateMessage(CreateMessageFlow::Commit { .. }) => 2,
        Flow::UserCreate(UserCreateFlow::Build { .. }) => 5,
        Flow::UserCreate(UserCreateFlow::Namesake { .. }) => 4,
        Flow::UserCreate(UserCreateFlow::Hash { .. }) => 3,
        Flow::UserCreate(UserCreateFlow::CommitUser { .. }) => 2,
        Flow::UserAuth(UserAuthFlow::Validate) => 2,
        Flow::CreateGuild(CreateGuildFlow::Build { .. }) => 3,
        Flow::CreateGuild(CreateGuildFlow::Commit { .. }) => 2,
        Flow::CreateChannel(CreateChannelFlow::User { .. }) => 4,
        Flow::CreateChannel(CreateChannelFlow::Guild { .. }) => 3,
        Flow::CreateChannel(CreateChannelFlow::Build) => 2,
        Flow::FetchGuild(FetchGuildFlow::Member { .. }) => 2,
        Flow::FetchChannel(FetchChannelFlow::Channel { .. }) => 2,
        Flow::FetchMember(FetchMemberFlow::Member { .. }) => 2,
        _ => 1,
    }
}

pub open spec fn step_remaining(step: StepView) -> nat {
    match step {
        StepView::Perform { flow, .. } => remaining(flow),
        _ => 0,
    }
}

proof fn lemma_answers_in_time(step: StepView, events: Seq<Event>)
    requires
        is_sound(step),
        is_told(step, events),
    ensures
        events.len() + step_remaining(run(step, events).end) <= step_remaining(step),
        run(step, events).performed.len() <= step_remaining(step),
    decreases events.len(),
{
    if let StepView::Perform { flow, action } = step {
        if events.len() > 0 {
            assert(waits_for(flow, events[0]));
            lemma_answers_in_time(next(flow, events[0]), events.skip(1));
        }
    }
}

/// A handler performs five actions at most, and has answered once it has heard what came of
/// five.
pub proof fn law_handlers_answer(
    endpoint: Endpoint,
    token: Option<Token>,
    payload: Payload,
    events: Seq<Event>,
)
    requires
        start(endpoint, token, payload) matches Some(step) && is_told(step, events),
    ensures
        run(start(endpoint, token, payload)->0, events).performed.len() <= 5,
        events.len() <= 5,
        events.len() == 5 ==> !(run(start(endpoint, token, payload)->0, events).end is Perform),
{
    lemma_answers_in_time(start(endpoint, token, payload)->0, events);
}

/// `flow` has asked for something to be written.
pub open spec fn has_written(flow: Flow) -> bool {
    match flow {
        Flow::CreateMessage(CreateMessageFlow::Commit { .. }) => true,
        Flow::CreateMessage(CreateMessageFlow::Dispatch { .. }) => true,
        Flow::UserCreate(UserCreateFlow::CommitUser { .. }) => true,
        Flow::UserCreate(UserCreateFlow::CommitCredentials { .. }) => true,
        Flow::CreateGuild(CreateGuildFlow::Commit { .. }) => true,
        Flow::CreateGuild(CreateGuildFlow::AddMember { .. }) => true,
        Flow::CreateChannel(CreateChannelFlow::Commit { .. }) => true,
        _ => false,
    }
}

pub open spec fn writes(performed: Seq<Action>) -> bool {
    exists|i: int| 0 <= i < performed.len() && is_write(#[trigger] performed[i])
}

spec fn step_has_written(step: StepView) -> bool {
    match step {
        StepView::Perform { flow, .. } => has_written(flow),
        _ => false,
    }
}

proof fn lemma_after_write(step: StepView, events: Seq<Event>)
    requires
        is_sound(step),
        is_told(step, events),
        step_has_written(step),
        run(step, events).end is Refuse,
    ensures
        run(step, events).end == database_failed(),
    decreases events.len(),
{
    if let StepView::Perform { flow, action } = step {
        assert(waits_for(flow, events[0]));
        let after = next(flow, events[0]);
        if after is Perform {
            lemma_after_write(after, events.skip(1));
        }
    }
}

/// A step that performs a write knows that it does.
spec fn is_marked(step: StepView) -> bool {
    match step {
        StepView::Perform { flow, action } => is_write(action) ==> has_written(flow),
        _ => true,
    }
}

proof fn lemma_refused_without_write(step: StepView, events: Seq<Event>)
    requires
        is_sound(step),
        is_marked(step),
        is_told(step, events),
        run(step, events).end is Refuse,
        writes(run(step, events).performed),
    ensures
        run(step, events).end == database_failed(),
    decreases events.len(),
{
    if let StepView::Perform { flow, action } = step {
        if step_has_written(step) {
            lemma_after_write(step, events);
        } else {
            let rest = run(next(flow, events[0]), events.skip(1));
            let performed = run(step, events).performed;
            let i = choose|i: int| 0 <= i < performed.len() && is_write(#[trigger] performed[i]);
            assert(performed == seq![action] + rest.performed);
            assert(waits_for(flow, events[0]));
            assert(rest.performed[i - 1] == performed[i]);
            assert(is_sound(next(flow, events[0])));
            lemma_refused_without_write(next(flow, events[0]), events.skip(1));
        }
    }
}

/// A request that is refused, other than because the database failed, has written nothing.
pub proof fn law_refused_requests_write_nothing(
    endpoint: Endpoint,
    token: Option<Token>,
    payload: Payload,
    events: Seq<Event>,
)
    requires
        start(endpoint, token, payload) matches Some(step) && is_told(step, events),
        run(start(endpoint, token, payload)->0, events).end is Refuse,
        run(start(endpoint, token, payload)->0, events).end != database_failed(),
    ensures
        !writes(run(start(endpoint, token, payload)->0, events).performed),
{
    let step = start(endpoint, token, payload)->0;
    if writes(run(step, events).performed) {
        lemma_refused_without_write(step, events);
    }
}

/// The endpoint only looks at what is stored.
pub open spec fn is_read(endpoint: Endpoint) -> bool {
    match endpoint {
        Endpoint::QuerySelf => true,
        Endpoint::FetchChannel { .. } => true,
        Endpoint::FetchGuild { .. } => true,
        Endpoint::FetchMember { .. } => true,
        Endpoint::FetchMemberSelf { .. } => true,
        Endpoint::FetchSelfGuilds => true,
        _ => false,
    }
}

/// The handler belongs to an endpoint that only looks at what is stored, or logs in.
spec fn makes_nothing(flow: Flow) -> bool {
    match flow {
        Flow::CreateMessage(_) => false,
        Flow::UserCreate(_) => false,
        Flow::CreateGuild(_) => false,
        Flow::CreateChannel(_) => false,
        _ => true,
    }
}

spec fn step_makes_nothing(step: StepView) -> bool {
    match step {
        StepView::Perform { flow, action } => makes_nothing(flow) && !is_write(action),
        StepView::Answer(reply) => reply.status == Status::Success,
        StepView::Refuse(_) => true,
    }
}

proof fn lemma_makes_nothing(step: StepView, events: Seq<Event>)
    requires
        is_sound(step),
        is_told(step, events),
        step_makes_nothing(step),
    ensures
        !writes(run(step, events).performed),
        run(step, events).end matches StepView::Answer(reply) ==> reply.status == Status::Success,
    decreases events.len(),
{
    if let StepView::Perform { flow, action } = step {
        if events.len() > 0 {
            assert(waits_for(flow, events[0]));
            let after = next(flow, events[0]);
            lemma_makes_nothing(after, events.skip(1));
            let performed = run(step, events).performed;
            let rest = run(after, events.skip(1)).performed;
            assert(performed == seq![action] + rest);
            assert forall|i: int| 0 <= i < performed.len() implies !is_write(
                #[trigger] performed[i],
            ) by {
                if i > 0 {
                    assert(performed[i] == rest[i - 1]);
                }
            }
        }
    }
}

spec fn step_makes_something(step: StepView) -> bool {
    match step {
        StepView::Perform { flow, .. } => !makes_nothing(flow),
        StepView::Answer(reply) => reply.status == Status::Created,
        StepView::Refuse(_) => true,
    }
}

proof fn lemma_makes_something(step: StepView, events: Seq<Event>)
    requires
        is_sound(step),
        is_told(step, events),
        step_makes_something(step),
    ensures
        run(step, events).end matches StepView::Answer(reply) ==> reply.status == Status::Created,
    decreases events.len(),
{
    if let StepView::Perform { flow, action } = step {
        if events.len() > 0 {
            assert(waits_for(flow, events[0]));
            lemma_makes_something(next(flow, events[0]), events.skip(1));
        }
    }
}

/// Looking at something, and logging in, writes nothing.
pub proof fn law_reading_writes_nothing(
    endpoint: Endpoint,
    token: Option<Token>,
    payload: Payload,
    events: Seq<Event>,
)
    requires
        is_read(endpoint) || endpoint is Login,
        start(endpoint, token, payload) matches Some(step) && is_told(step, events),
    ensures
        !writes(run(start(endpoint, token, payload)->0, events).performed),
{
    lemma_makes_nothing(start(endpoint, token, payload)->0, events);
}

/// A request is answered that something was created if it was to create something, and
/// otherwise that it went well.
pub proof fn law_statuses(
    endpoint: Endpoint,
    token: Option<Token>,
    payload: Payload,
    events: Seq<Event>,
)
    requires
        start(endpoint, token, payload) matches Some(step) && is_told(step, events),
        run(start(endpoint, token, payload)->0, events).end is Answer,
    ensures
        run(start(endpoint, token, payload)->0, events).end->Answer_0.status == if is_read(endpoint)
            || endpoint is Login {
            Status::Success
        } else {
            Status::Created
        },
{
    let step = start(endpoint, token, payload)->0;
    if is_read(endpoint) || endpoint is Login {
        lemma_makes_nothing(step, events);
    } else {
        lemma_makes_something(step, events);
    }
}

/// A step whose write is to be told about, or to be followed by another, performs that write.
spec fn is_paired(step: StepView) -> bool {
    match step {
        StepView::Perform { flow, action } => match flow {
            Flow::CreateMessage(CreateMessageFlow::Commit { message }) => action
                == (Action::CommitMessage { message }),
            Flow::UserCreate(UserCreateFlow::CommitUser { user, credentials }) => {
                &&& action == Action::CommitUser { user }
                &&& credentials.user_id == user.id
            },
            Flow::CreateGuild(CreateGuildFlow::Commit { guild, .. }) => action
                == (Action::CommitGuild { guild }),
            _ => true,
        },
        _ => true,
    }
}

/// `action` follows on a write that `before` performed and that `told` says was done.
pub open spec fn follows(action: Action, before: Action, told: Event) -> bool {
    match action {
        Action::Dispatch { event: GatewayEvent::MessageCreate(message) } => {
            &&& before == Action::CommitMessage { message }
            &&& told == Event::Written(true)
        },
        Action::CommitCredentials { credentials } => {
            &&& before matches Action::CommitUser { user }
            &&& credentials.user_id == user.id
            &&& told == Event::Written(true)
        },
        Action::AddMember { guild, .. } => {
            &&& before == Action::CommitGuild { guild }
            &&& told == Event::Written(true)
        },
        _ => true,
    }
}

proof fn lemma_follows(step: StepView, events: Seq<Event>, i: int)
    requires
        is_sound(step),
        is_paired(step),
        is_told(step, events),
        0 < i < run(step, events).performed.len(),
    ensures
        i <= events.len(),
        follows(
            run(step, events).performed[i],
            run(step, events).performed[i - 1],
            events[i - 1],
        ),
    decreases events.len(),
{
    reveal_with_fuel(run, 2);
    if let StepView::Perform { flow, action } = step {
        assert(waits_for(flow, events[0]));
        let after = next(flow, events[0]);
        let rest = run(after, events.skip(1));
        assert(run(step, events).performed == seq![action] + rest.performed);
        if i > 1 {
            assert(run(step, events).performed[i] == rest.performed[i - 1]);
            assert(run(step, events).performed[i - 1] == rest.performed[i - 2]);
            lemma_follows(after, events.skip(1), i - 1);
            assert(events.skip(1)[i - 2] == events[i - 1]);
        } else {
            assert(rest.performed.len() > 0);
            assert(run(step, events).performed[1] == rest.performed[0]);
        }
    }
}

/// Clients are told of a message right after it has been stored, a password hash is stored right
/// after the user it belongs to has been, and a guild gets its first member right after it has
/// been stored; none of these is done otherwise.
pub proof fn law_order_of_writes(
    endpoint: Endpoint,
    token: Option<Token>,
    payload: Payload,
    events: Seq<Event>,
    i: int,
)
    requires
        start(endpoint, token, payload) matches Some(step) && is_told(step, events),
        0 <= i < run(start(endpoint, token, payload)->0, events).performed.len(),
    ensures
        ({
            let performed = run(start(endpoint, token, payload)->0, events).performed;
            if i == 0 {
                !is_write(performed[0]) && !(performed[0] is Dispatch)
            } else {
                i <= events.len() && follows(performed[i], performed[i - 1], events[i - 1])
            }
        }),
{
    if i > 0 {
        lemma_follows(start(endpoint, token, payload)->0, events, i);
    }
}

spec fn step_has_key(step: StepView) -> bool {
    match step {
        StepView::Perform { action: Action::IssueToken { key, .. }, .. } => key == TOKEN_KEY,
        _ => true,
    }
}

proof fn lemma_has_key(step: StepView, events: Seq<Event>, i: int)
    requires
        is_sound(step),
        step_has_key(step),
        is_told(step, events),
        0 <= i < run(step, events).performed.len(),
    ensures
        run(step, events).performed[i] matches Action::IssueToken { key, .. } ==> key == TOKEN_KEY,
    decreases events.len(),
{
    if let StepView::Perform { flow, action } = step {
        if i > 0 {
            assert(waits_for(flow, events[0]));
            let rest = run(next(flow, events[0]), events.skip(1));
            assert(run(step, events).performed[i] == rest.performed[i - 1]);
            lemma_has_key(next(flow, events[0]), events.skip(1), i - 1);
        }
    }
}

/// Session tokens are signed with the key that they are validated with.
pub proof fn law_tokens_have_one_key(
    endpoint: Endpoint,
    token: Option<Token>,
    payload: Payload,
    events: Seq<Event>,
    i: int,
)
    requires
        start(endpoint, token, payload) matches Some(step) && is_told(step, events),
        0 <= i < run(start(endpoint, token, payload)->0, events).performed.len(),
    ensures
        run(start(endpoint, token, payload)->0, events).performed[i] matches Action::IssueToken {
            key,
            ..
        } ==> key == TOKEN_KEY,
{
    lemma_has_key(start(endpoint, token, payload)->0, events, i);
}

/// What sending a message comes to. `channel` and `member` are what is found of the channel and
/// of the user in its guild, `message` is what the new message is, and `stored` tells whether it
/// could be stored.
pub proof fn law_create_message(
    channel_id: Snowflake,
    token: Token,
    payload: CreateMessage,
    channel: Option<Channel>,
    member: Option<Member>,
    message: Message,
    stored: bool,
)
    ensures
        start(
            Endpoint::CreateMessage { channel_id },
            Some(token),
            Payload::Message(payload),
        ) == Some(create_message_start(channel_id, token, payload)),
        ({
            let started = start(
                Endpoint::CreateMessage { channel_id },
                Some(token),
                Payload::Message(payload),
            );
            let events = seq![
                Event::Channel(channel),
                Event::Member(member),
                Event::MessageBuilt(message),
                Event::Written(stored),
                Event::Dispatched,
            ];
            let all = seq![
                Action::FetchChannel { channel_id },
                Action::FetchMember { user_id: token.user_id, guild_id: channel->0.guild_id },
                Action::BuildMessage { author: UserLike::Member(member->0), channel_id, payload },
                Action::CommitMessage { message },
                Action::Dispatch { event: GatewayEvent::MessageCreate(message) },
            ];
            let run = run(started->0, events);
            if channel is None {
                &&& run.end == StepView::Refuse(
                    RejectionView::InternalServerError {
                        message: "A database transaction error occured."@,
                    },
                )
                &&& run.performed == all.take(1)
            } else if member is None {
                &&& run.end == StepView::Refuse(
                    RejectionView::InternalServerError {
                        message: "A database transaction error occured."@,
                    },
                )
                &&& run.performed == all.take(2)
            } else if !stored {
                &&& run.end == StepView::Refuse(
                    RejectionView::InternalServerError {
                        message: "A database transaction error occured."@,
                    },
                )
                &&& run.performed == all.take(4)
            } else {
                &&& run.end == StepView::Answer(
                    ReplyView { status: Status::Created, body: BodyView::Message(message) },
                )
                &&& run.performed == all
            }
        }),
{
    reveal_with_fuel(run, 6);
}

/// What registering comes to, with a token or without. `built` is the new user or what is wrong
/// with the payload, `namesake` is who has the name already, `hash` is the hash of the password,
/// and the last two tell whether the user and the hash could be stored.
pub proof fn law_user_create(
    token: Option<Token>,
    payload: CreateUser,
    built: Result<User, String>,
    namesake: Option<User>,
    hash: String,
    user_stored: bool,
    hash_stored: bool,
)
    ensures
        start(
            Endpoint::CreateUser,
            token,
            Payload::User(payload),
        ) == Some(user_create_start(payload)),
        ({
            let started = start(Endpoint::CreateUser, token, Payload::User(payload));
            let events = seq![
                Event::UserBuilt(built),
                Event::User(namesake),
                Event::PasswordHashed(hash),
                Event::Written(user_stored),
                Event::Written(hash_stored),
            ];
            let user = built->Ok_0;
            let all = seq![
                Action::BuildUser { payload },
                Action::FetchUserByUsername { username: user.username },
                Action::HashPassword { password: payload.password },
                Action::CommitUser { user },
                Action::CommitCredentials {
                    credentials: StoredCredentials { user_id: user.id, hash },
                },
            ];
            let run = run(started->0, events);
            if built is Err {
                &&& run.end == StepView::Refuse(
                    RejectionView::BadRequest { message: built->Err_0@ },
                )
                &&& run.performed == all.take(1)
            } else if namesake is Some {
                &&& run.end == StepView::Refuse(
                    RejectionView::BadRequest {
                        message: "User with username "@ + user.username@ + " already exists"@,
                    },
                )
                &&& run.performed == all.take(2)
            } else if !user_stored {
                &&& run.end == StepView::Refuse(
                    RejectionView::InternalServerError {
                        message: "A database transaction error occured."@,
                    },
                )
                &&& run.performed == all.take(4)
            } else if !hash_stored {
                &&& run.end == StepView::Refuse(
                    RejectionView::InternalServerError {
                        message: "A database transaction error occured."@,
                    },
                )
                &&& run.performed == all
            } else {
                &&& run.end == StepView::Answer(
                    ReplyView { status: Status::Created, body: BodyView::User(user) },
                )
                &&& run.performed == all
            }
        }),
{
    reveal_with_fuel(run, 6);
}

/// What logging in comes to, with a token already or without. `user_id` is who the credentials
/// belong to, if they are right, and `token` is the new session token, if one could be made.
pub proof fn law_user_auth(
    sent: Option<Token>,
    credentials: Credentials,
    user_id: Option<Snowflake>,
    token: Option<SecretToken>,
)
    ensures
        start(
            Endpoint::Login,
            sent,
            Payload::Login(credentials),
        ) == Some(user_auth_start(credentials)),
        ({
            let started = start(Endpoint::Login, sent, Payload::Login(credentials));
            let events = seq![Event::CredentialsValidated(user_id), Event::TokenIssued(token)];
            let all = seq![
                Action::ValidateCredentials { credentials },
                Action::IssueToken { user_id: user_id->0, key: "among us" },
            ];
            let run = run(started->0, events);
            if user_id is None {
                &&& run.end == StepView::Refuse(
                    RejectionView::Unauthorized { message: "Invalid credentials"@ },
                )
                &&& run.performed == all.take(1)
            } else if token is None {
                &&& run.end == StepView::Refuse(
                    RejectionView::InternalServerError {
                        message: "Failed to generate session token."@,
                    },
                )
                &&& run.performed == all
            } else {
                &&& run.end == StepView::Answer(
                    ReplyView {
                        status: Status::Success,
                        body: BodyView::Session {
                            user_id: user_id->0,
                            token: secret_text(token->0),
                        },
                    },
                )
                &&& run.performed == all
            }
        }),
{
    reveal_with_fuel(run, 3);
}

/// What creating a guild comes to. `guild` is what the new guild is, and the last two tell
/// whether it could be stored and the user added to it.
pub proof fn law_create_guild(
    token: Token,
    payload: CreateGuild,
    guild: Guild,
    stored: bool,
    added: bool,
)
    ensures
        start(
            Endpoint::CreateGuild,
            Some(token),
            Payload::Guild(payload),
        ) == Some(create_guild_start(token, payload)),
        ({
            let started = start(Endpoint::CreateGuild, Some(token), Payload::Guild(payload));
            let events = seq![
                Event::GuildBuilt(guild),
                Event::Written(stored),
                Event::Written(added),
            ];
            let all = seq![
                Action::BuildGuild { payload, owner_id: token.user_id },
                Action::CommitGuild { guild },
                Action::AddMember { guild, user_id: token.user_id },
            ];
            let run = run(started->0, events);
            if !stored {
                &&& run.end == StepView::Refuse(
                    RejectionView::InternalServerError {
                        message: "A database transaction error occured."@,
                    },
                )
                &&& run.performed == all.take(2)
            } else if !added {
                &&& run.end == StepView::Refuse(
                    RejectionView::InternalServerError {
                        message: "A database transaction error occured."@,
                    },
                )
                &&& run.performed == all
            } else {
                &&& run.end == StepView::Answer(
                    ReplyView { status: Status::Created, body: BodyView::Guild(guild) },
                )
                &&& run.performed == all
            }
        }),
{
    reveal_with_fuel(run, 4);
}

/// What creating a channel comes to. `user` and `guild` are what is found of the user and of the
/// guild, `channel` is what the new channel is, and `stored` tells whether it could be stored.
/// Nobody but the owner of the guild gets as far as making a channel.
pub proof fn law_create_channel(
    guild_id: Snowflake,
    token: Token,
    payload: CreateChannel,
    user: Option<User>,
    guild: Option<Guild>,
    channel: Channel,
    stored: bool,
)
    ensures
        start(
            Endpoint::CreateChannel { guild_id },
            Some(token),
            Payload::Channel(payload),
        ) == Some(create_channel_start(guild_id, token, payload)),
        ({
            let started = start(
                Endpoint::CreateChannel { guild_id },
                Some(token),
                Payload::Channel(payload),
            );
            let events = seq![
                Event::User(user),
                Event::Guild(guild),
                Event::ChannelBuilt(channel),
                Event::Written(stored),
            ];
            let all = seq![
                Action::FetchUser { user_id: token.user_id },
                Action::FetchGuild { guild_id },
                Action::BuildChannel { payload, guild_id },
                Action::CommitChannel { channel },
            ];
            let run = run(started->0, events);
            if user is None {
                &&& run.end == StepView::Refuse(
                    RejectionView::InternalServerError {
                        message: "A database transaction error occured."@,
                    },
                )
                &&& run.performed == all.take(1)
            } else if guild is None {
                &&& run.end == StepView::Refuse(
                    RejectionView::BadRequest { message: "The requested guild does not exist."@ },
                )
                &&& run.performed == all.take(2)
            } else if guild->0.owner_id != user->0.id {
                &&& run.end == StepView::Refuse(
                    RejectionView::Forbidden { message: "You are not the owner of this guild."@ },
                )
                &&& run.performed == all.take(2)
            } else if !stored {
                &&& run.end == StepView::Refuse(
                    RejectionView::InternalServerError {
                        message: "A database transaction error occured."@,
                    },
                )
                &&& run.performed == all
            } else {
                &&& run.end == StepView::Answer(
                    ReplyView { status: Status::Created, body: BodyView::Channel(channel) },
                )
                &&& run.performed == all
            }
        }),
{
    reveal_with_fuel(run, 5);
}

/// What looking at oneself comes to. `user` is what is found of the user.
pub proof fn law_user_getself(token: Token, user: Option<User>)
    ensures
        start(
            Endpoint::QuerySelf,
            Some(token),
            Payload::Nothing,
        ) == Some(user_getself_start(token)),
        ({
            let started = start(Endpoint::QuerySelf, Some(token), Payload::Nothing);
            let run = run(started->0, seq![Event::User(user)]);
            &&& run.performed == seq![Action::FetchUser { user_id: token.user_id }]
            &&& run.end == match user {
                None => StepView::Refuse(
                    RejectionView::InternalServerError {
                        message: "A database transaction error occured."@,
                    },
                ),
                Some(user) => StepView::Answer(
                    ReplyView { status: Status::Success, body: BodyView::User(user) },
                ),
            }
        }),
{
    reveal_with_fuel(run, 2);
}

/// What looking at a guild comes to. `member` is what is found of the user in the guild, `guild`
/// what is found of the guild. It is not looked for unless the user is a member.
pub proof fn law_fetch_guild(
    guild_id: Snowflake,
    token: Token,
    member: Option<Member>,
    guild: Option<Guild>,
)
    ensures
        start(
            Endpoint::FetchGuild { guild_id },
            Some(token),
            Payload::Nothing,
        ) == Some(fetch_guild_start(guild_id, token)),
        ({
            let started = start(Endpoint::FetchGuild { guild_id }, Some(token), Payload::Nothing);
            let all = seq![
                Action::FetchMember { user_id: token.user_id, guild_id },
                Action::FetchGuild { guild_id },
            ];
            let run = run(
                started->0,
                seq![Event::Member(member), Event::Guild(guild)],
            );
            if member is None {
                &&& run.end == StepView::Refuse(
                    RejectionView::Forbidden { message: "Not permitted to view resource."@ },
                )
                &&& run.performed == all.take(1)
            } else if guild is None {
                &&& run.end == StepView::Refuse(
                    RejectionView::InternalServerError {
                        message: "A database transaction error occured."@,
                    },
                )
                &&& run.performed == all
            } else {
                &&& run.end == StepView::Answer(
                    ReplyView { status: Status::Success, body: BodyView::Guild(guild->0) },
                )
                &&& run.performed == all
            }
        }),
{
    reveal_with_fuel(run, 3);
}

/// What looking at a channel comes to. `channel` is what is found of the channel, `member` what
/// is found of the user in its guild. Nobody but a member is shown the channel.
pub proof fn law_fetch_channel(
    channel_id: Snowflake,
    token: Token,
    channel: Option<Channel>,
    member: Option<Member>,
)
    ensures
        start(
            Endpoint::FetchChannel { channel_id },
            Some(token),
            Payload::Nothing,
        ) == Some(fetch_channel_start(channel_id, token)),
        ({
            let started = start(
                Endpoint::FetchChannel { channel_id },
                Some(token),
                Payload::Nothing,
            );
            let all = seq![
                Action::FetchChannel { channel_id },
                Action::FetchMember { user_id: token.user_id, guild_id: channel->0.guild_id },
            ];
            let run = run(
                started->0,
                seq![Event::Channel(channel), Event::Member(member)],
            );
            if channel is None {
                &&& run.end == StepView::Refuse(
                    RejectionView::BadRequest {
                        message: "Channel does not exist or is not available."@,
                    },
                )
                &&& run.performed == all.take(1)
            } else if member is None {
                &&& run.end == StepView::Refuse(
                    RejectionView::Forbidden { message: "Not permitted to view resource."@ },
                )
                &&& run.performed == all
            } else {
                &&& run.end == StepView::Answer(
                    ReplyView { status: Status::Success, body: BodyView::Channel(channel->0) },
                )
                &&& run.performed == all
            }
        }),
{
    reveal_with_fuel(run, 3);
}

/// What looking at a member comes to. `member` is what is found of the member, `requester` what
/// is found of the user in the same guild. Nobody but a member is shown the member.
pub proof fn law_fetch_member(
    guild_id: Snowflake,
    member_id: Snowflake,
    token: Token,
    member: Option<Member>,
    requester: Option<Member>,
)
    ensures
        start(
            Endpoint::FetchMember { guild_id, member_id },
            Some(token),
            Payload::Nothing,
        ) == Some(fetch_member_start(guild_id, member_id, token)),
        ({
            let started = start(
                Endpoint::FetchMember { guild_id, member_id },
                Some(token),
                Payload::Nothing,
            );
            let all = seq![
                Action::FetchMember { user_id: member_id, guild_id },
                Action::FetchMember { user_id: token.user_id, guild_id },
            ];
            let run = run(
                started->0,
                seq![Event::Member(member), Event::Member(requester)],
            );
            if member is None {
                &&& run.end == StepView::Refuse(
                    RejectionView::BadRequest {
                        message: "Member does not exist or is not available."@,
                    },
                )
                &&& run.performed == all.take(1)
            } else if requester is None {
                &&& run.end == StepView::Refuse(
                    RejectionView::Forbidden { message: "Not permitted to view resource."@ },
                )
                &&& run.performed == all
            } else {
                &&& run.end == StepView::Answer(
                    ReplyView { status: Status::Success, body: BodyView::Member(member->0) },
                )
                &&& run.performed == all
            }
        }),
{
    reveal_with_fuel(run, 3);
}

/// What looking at oneself in a guild comes to. `member` is what is found of the user there.
pub proof fn law_fetch_member_self(guild_id: Snowflake, token: Token, member: Option<Member>)
    ensures
        start(
            Endpoint::FetchMemberSelf { guild_id },
            Some(token),
            Payload::Nothing,
        ) == Some(fetch_member_self_start(guild_id, token)),
        ({
            let started = start(
                Endpoint::FetchMemberSelf { guild_id },
                Some(token),
                Payload::Nothing,
            );
            let run = run(started->0, seq![Event::Member(member)]);
            &&& run.performed == seq![Action::FetchMember { user_id: token.user_id, guild_id }]
            &&& run.end == match member {
                None => StepView::Refuse(
                    RejectionView::BadRequest {
                        message: "Member does not exist or is not available."@,
                    },
                ),
                Some(member) => StepView::Answer(
                    ReplyView { status: Status::Success, body: BodyView::Member(member) },
                ),
            }
        }),
{
    reveal_with_fuel(run, 2);
}

/// What looking at one's guilds comes to. `guilds` is what is found of them, unless the database
/// failed.
pub proof fn law_fetch_self_guilds(token: Token, guilds: Option<Vec<Guild>>)
    ensures
        start(
            Endpoint::FetchSelfGuilds,
            Some(token),
            Payload::Nothing,
        ) == Some(fetch_self_guilds_start(token)),
        ({
            let started = start(Endpoint::FetchSelfGuilds, Some(token), Payload::Nothing);
            let run = run(started->0, seq![Event::Guilds(guilds)]);
            &&& run.performed == seq![Action::FetchGuildsOf { user_id: token.user_id }]
            &&& run.end == match guilds {
                None => StepView::Refuse(
                    RejectionView::InternalServerError {
                        message: "A database transaction error occured."@,
                    },
                ),
                Some(guilds) => StepView::Answer(
                    ReplyView { status: Status::Success, body: BodyView::Guilds(guilds@) },
                ),
            }
        }),
{
    reveal_with_fuel(run, 2);
}

} // verus!
