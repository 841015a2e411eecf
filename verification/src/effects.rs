//! What handlers ask of the world, and what they are told.

use crate::model::{
    Channel, CreateChannel, CreateGuild, CreateMessage, CreateUser, Credentials, GatewayEvent,
    Guild, Member, Message, Snowflake, StoredCredentials, User, UserLike,
};
use crate::secret::SecretToken;
use vstd::prelude::*;

verus! {

/// One thing that a handler asks for.
#[derive(Debug, PartialEq, Eq)]
#[allow(inconsistent_fields)]
pub enum Action {
    FetchChannel { channel_id: Snowflake },
    FetchMember { user_id: Snowflake, guild_id: Snowflake },
    FetchGuild { guild_id: Snowflake },
    FetchUser { user_id: Snowflake },
    FetchUserByUsername { username: String },
    FetchGuildsOf { user_id: Snowflake },
    /// Make a new message, with an id of its own. It is not stored yet.
    BuildMessage { author: UserLike, channel_id: Snowflake, payload: CreateMessage },
    /// Make a new user, with an id of its own. It is not stored yet.
    BuildUser { payload: CreateUser },
    /// Make a new guild, with an id of its own. It is not stored yet.
    BuildGuild { payload: CreateGuild, owner_id: Snowflake },
    /// Make a new channel, with an id of its own. It is not stored yet.
    BuildChannel { payload: CreateChannel, guild_id: Snowflake },
    HashPassword { password: String },
    CommitMessage { message: Message },
    CommitUser { user: User },
    CommitCredentials { credentials: StoredCredentials },
    CommitGuild { guild: Guild },
    CommitChannel { channel: Channel },
    AddMember { guild: Guild, user_id: Snowflake },
    ValidateCredentials { credentials: Credentials },
    /// Make a session token, signed with the key.
    IssueToken { user_id: Snowflake, key: &'static str },
    /// Tell the connected clients.
    Dispatch { event: GatewayEvent },
}

/// What came of an action.
pub enum Event {
    Channel(Option<Channel>),
    Member(Option<Member>),
    Guild(Option<Guild>),
    User(Option<User>),
    /// `None` if the guilds could not be fetched.
    Guilds(Option<Vec<Guild>>),
    MessageBuilt(Message),
    /// The new user, or what is wrong with the payload.
    UserBuilt(Result<User, String>),
    GuildBuilt(Guild),
    ChannelBuilt(Channel),
    PasswordHashed(String),
    /// Whether what was to be written has been written.
    Written(bool),
    /// The user who the credentials belong to, if they are right.
    CredentialsValidated(Option<Snowflake>),
    /// `None` if no token could be made.
    TokenIssued(Option<SecretToken>),
    Dispatched,
}

/// `event` is of the kind that tells what came of `action`.
pub open spec fn answers(event: Event, action: Action) -> bool {
    match action {
        Action::FetchChannel { .. } => event is Channel,
        Action::FetchMember { .. } => event is Member,
        Action::FetchGuild { .. } => event is Guild,
        Action::FetchUser { .. } => event is User,
        Action::FetchUserByUsername { .. } => event is User,
        Action::FetchGuildsOf { .. } => event is Guilds,
        Action::BuildMessage { .. } => event is MessageBuilt,
        Action::BuildUser { .. } => event is UserBuilt,
        Action::BuildGuild { .. } => event is GuildBuilt,
        Action::BuildChannel { .. } => event is ChannelBuilt,
        Action::HashPassword { .. } => event is PasswordHashed,
        Action::CommitMessage { .. } => event is Written,
        Action::CommitUser { .. } => event is Written,
        Action::CommitCredentials { .. } => event is Written,
        Action::CommitGuild { .. } => event is Written,
        Action::CommitChannel { .. } => event is Written,
        Action::AddMember { .. } => event is Written,
        Action::ValidateCredentials { .. } => event is CredentialsValidated,
        Action::IssueToken { .. } => event is TokenIssued,
        Action::Dispatch { .. } => event is Dispatched,
    }
}

/// `action` changes what is stored.
pub open spec fn is_write(action: Action) -> bool {
    match action {
        Action::CommitMessage { .. } => true,
        Action::CommitUser { .. } => true,
        Action::CommitCredentials { .. } => true,
        Action::CommitGuild { .. } => true,
        Action::CommitChannel { .. } => true,
        Action::AddMember { .. } => true,
        _ => false,
    }
}

/// Each action is answered by events of one kind, whatever they hold.
pub proof fn law_each_action_has_its_answer(event: Event, action: Action)
    ensures
        action is FetchChannel ==> (answers(event, action) <==> event is Channel),
        action is FetchMember ==> (answers(event, action) <==> event is Member),
        action is FetchGuild ==> (answers(event, action) <==> event is Guild),
        action is FetchUser || action is FetchUserByUsername ==> (answers(event, action)
            <==> event is User),
        action is FetchGuildsOf ==> (answers(event, action) <==> event is Guilds),
        action is BuildMessage ==> (answers(event, action) <==> event is MessageBuilt),
        action is BuildUser ==> (answers(event, action) <==> event is UserBuilt),
        action is BuildGuild ==> (answers(event, action) <==> event is GuildBuilt),
        action is BuildChannel ==> (answers(event, action) <==> event is ChannelBuilt),
        action is HashPassword ==> (answers(event, action) <==> event is PasswordHashed),
        is_write(action) ==> (answers(event, action) <==> event is Written),
        action is ValidateCredentials ==> (answers(event, action) <==> event
            is CredentialsValidated),
        action is IssueToken ==> (answers(event, action) <==> event is TokenIssued),
        action is Dispatch ==> (answers(event, action) <==> event is Dispatched),
        is_write(action) <==> (action is CommitMessage || action is CommitUser || action
            is CommitCredentials || action is CommitGuild || action is CommitChannel || action
            is AddMember),
{
}

} // verus!
