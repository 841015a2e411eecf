//! The records that requests read and write.

use vstd::prelude::*;

verus! {

/// The id of a user, a guild, a channel or a message.
#[derive(Clone, Copy, Debug, PartialEq, Eq, Structural)]
pub struct Snowflake {
    pub value: u64,
}

/// A session token that was found valid, with the user it speaks for.
#[derive(Clone, Copy, Debug, PartialEq, Eq, Structural)]
pub struct Token {
    pub user_id: Snowflake,
}

/// A registered user.
#[derive(Debug, PartialEq, Eq)]
pub struct User {
    pub id: Snowflake,
    pub username: String,
}

/// A guild, which its owner has created.
#[derive(Debug, PartialEq, Eq)]
pub struct Guild {
    pub id: Snowflake,
    pub name: String,
    pub owner_id: Snowflake,
}

/// A channel of a guild.
#[derive(Debug, PartialEq, Eq)]
pub struct Channel {
    pub id: Snowflake,
    pub guild_id: Snowflake,
    pub name: String,
}

/// A user as part of a guild.
#[derive(Debug, PartialEq, Eq)]
pub struct Member {
    pub user: User,
    pub guild_id: Snowflake,
}

/// The author of a message.
#[derive(Debug, PartialEq, Eq)]
pub enum UserLike {
    User(User),
    Member(Member),
}

/// A message in a channel.
#[derive(Debug, PartialEq, Eq)]
pub struct Message {
    pub id: Snowflake,
    pub channel_id: Snowflake,
    pub author: UserLike,
    pub content: String,
}

/// The body of a request to send a message.
#[derive(Debug, PartialEq, Eq)]
pub struct CreateMessage {
    pub content: String,
}

/// The body of a request to register a user.
#[derive(Debug, PartialEq, Eq)]
pub struct CreateUser {
    pub username: String,
    pub password: String,
}

/// The body of a request to create a guild.
#[derive(Debug, PartialEq, Eq)]
pub struct CreateGuild {
    pub name: String,
}

/// The body of a request to create a channel.
#[derive(Debug, PartialEq, Eq)]
pub struct CreateChannel {
    pub name: String,
}

/// What a user logs in with.
#[derive(Debug, PartialEq, Eq)]
pub struct Credentials {
    pub username: String,
    pub password: String,
}

/// A password hash as it is kept for a user.
#[derive(Debug, PartialEq, Eq)]
pub struct StoredCredentials {
    pub user_id: Snowflake,
    pub hash: String,
}

/// What connected clients are told.
#[derive(Debug, PartialEq, Eq)]
pub enum GatewayEvent {
    MessageCreate(Message),
}

impl Clone for User {
    fn clone(&self) -> (copy: Self)
        ensures
            copy == *self,
    {
        User { id: self.id, username: self.username.clone() }
    }
}

impl Clone for Guild {
    fn clone(&self) -> (copy: Self)
        ensures
            copy == *self,
    {
        Guild { id: self.id, name: self.name.clone(), owner_id: self.owner_id }
    }
}

impl Clone for Channel {
    fn clone(&self) -> (copy: Self)
        ensures
            copy == *self,
    {
        Channel { id: self.id, guild_id: self.guild_id, name: self.name.clone() }
    }
}

impl Clone for Member {
    fn clone(&self) -> (copy: Self)
        ensures
            copy == *self,
    {
        Member { user: self.user.clone(), guild_id: self.guild_id }
    }
}

impl Clone for UserLike {
    fn clone(&self) -> (copy: Self)
        ensures
            copy == *self,
    {
        match self {
            UserLike::User(user) => UserLike::User(user.clone()),
            UserLike::Member(member) => UserLike::Member(member.clone()),
        }
    }
}

impl Clone for Message {
    fn clone(&self) -> (copy: Self)
        ensures
            copy == *self,
    {
        Message {
            id: self.id,
            channel_id: self.channel_id,
            author: self.author.clone(),
            content: self.content.clone(),
        }
    }
}

} // verus!
