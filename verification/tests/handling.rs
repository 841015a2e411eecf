use chat_backend::effects::{Action, Event};
use chat_backend::flow::{advance, is_awaited, Step};
use chat_backend::handlers::{begin, Payload};
use chat_backend::model::{
    Channel, CreateChannel, CreateGuild, CreateMessage, CreateUser, Credentials, GatewayEvent,
    Guild, Member, Message, Snowflake, StoredCredentials, Token, User, UserLike,
};
use chat_backend::reply::{Body, Rejection, Reply, Status};
use chat_backend::routes::Endpoint;
use chat_backend::secret::SecretToken;

fn id(value: u64) -> Snowflake {
    Snowflake { value }
}

fn token() -> Option<Token> {
    Some(Token { user_id: id(3) })
}

fn user() -> User {
    User { id: id(3), username: "ada".to_string() }
}

fn member() -> Member {
    Member { user: user(), guild_id: id(7) }
}

fn guild(owner_id: u64) -> Guild {
    Guild { id: id(7), name: "g".to_string(), owner_id: id(owner_id) }
}

fn channel() -> Channel {
    Channel { id: id(12), guild_id: id(7), name: "c".to_string() }
}

fn message() -> Message {
    Message {
        id: id(99),
        channel_id: id(12),
        author: UserLike::Member(member()),
        content: "hello".to_string(),
    }
}

fn database_failed() -> Result<Reply, Rejection> {
    Err(Rejection::InternalServerError {
        message: "A database transaction error occured.".to_string(),
    })
}

fn bad_request(message: &str) -> Result<Reply, Rejection> {
    Err(Rejection::BadRequest { message: message.to_string() })
}

fn forbidden(message: &str) -> Result<Reply, Rejection> {
    Err(Rejection::Forbidden { message: message.to_string() })
}

fn success(body: Body) -> Result<Reply, Rejection> {
    Ok(Reply { status: Status::Success, body })
}

fn created(body: Body) -> Result<Reply, Rejection> {
    Ok(Reply { status: Status::Created, body })
}

/// Runs a handler on these events, all of which it has to hear.
fn run(
    endpoint: Endpoint,
    payload: Payload,
    events: Vec<Event>,
) -> (Vec<Action>, Result<Reply, Rejection>) {
    let mut step = begin(endpoint, token(), payload).unwrap();
    let mut performed = Vec::new();
    let mut events = events.into_iter();
    loop {
        match step {
            Step::Perform { flow, action } => {
                performed.push(action);
                let event = events.next().unwrap();
                assert!(is_awaited(&flow, &event));
                step = advance(flow, event);
            }
            Step::Answer(reply) => {
                assert!(events.next().is_none());
                return (performed, Ok(reply));
            }
            Step::Refuse(rejection) => {
                assert!(events.next().is_none());
                return (performed, Err(rejection));
            }
        }
    }
}

fn send(events: Vec<Event>) -> (Vec<Action>, Result<Reply, Rejection>) {
    run(
        Endpoint::CreateMessage { channel_id: id(12) },
        Payload::Message(CreateMessage { content: "hello".to_string() }),
        events,
    )
}

#[test]
fn a_message_is_stored_and_then_told() {
    let (performed, end) = send(vec![
        Event::Channel(Some(channel())),
        Event::Member(Some(member())),
        Event::MessageBuilt(message()),
        Event::Written(true),
        Event::Dispatched,
    ]);
    assert_eq!(end, created(Body::Message(message())));
    assert_eq!(
        performed,
        [
            Action::FetchChannel { channel_id: id(12) },
            Action::FetchMember { user_id: id(3), guild_id: id(7) },
            Action::BuildMessage {
                author: UserLike::Member(member()),
                channel_id: id(12),
                payload: CreateMessage { content: "hello".to_string() },
            },
            Action::CommitMessage { message: message() },
            Action::Dispatch { event: GatewayEvent::MessageCreate(message()) },
        ]
    );
}

#[test]
fn a_message_that_is_not_stored_is_not_told() {
    let (performed, end) = send(vec![
        Event::Channel(Some(channel())),
        Event::Member(Some(member())),
        Event::MessageBuilt(message()),
        Event::Written(false),
    ]);
    assert_eq!(end, database_failed());
    assert_eq!(performed.len(), 4);
    assert_eq!(performed[3], Action::CommitMessage { message: message() });
}

#[test]
fn a_message_needs_a_channel_and_a_member() {
    let (performed, end) = send(vec![Event::Channel(None)]);
    assert_eq!(end, database_failed());
    assert_eq!(performed, [Action::FetchChannel { channel_id: id(12) }]);
    let (performed, end) = send(vec![Event::Channel(Some(channel())), Event::Member(None)]);
    assert_eq!(end, database_failed());
    assert_eq!(performed.len(), 2);
}

fn register(events: Vec<Event>) -> (Vec<Action>, Result<Reply, Rejection>) {
    let payload = CreateUser { username: "ada".to_string(), password: "pw".to_string() };
    run(Endpoint::CreateUser, Payload::User(payload), events)
}

#[test]
fn a_user_is_stored_before_the_credentials() {
    let (performed, end) = register(vec![
        Event::UserBuilt(Ok(user())),
        Event::User(None),
        Event::PasswordHashed("hash".to_string()),
        Event::Written(true),
        Event::Written(true),
    ]);
    assert_eq!(end, created(Body::User(user())));
    assert_eq!(
        performed,
        [
            Action::BuildUser {
                payload: CreateUser {
                    username: "ada".to_string(),
                    password: "pw".to_string()
                }
            },
            Action::FetchUserByUsername { username: "ada".to_string() },
            Action::HashPassword { password: "pw".to_string() },
            Action::CommitUser { user: user() },
            Action::CommitCredentials {
                credentials: StoredCredentials { user_id: id(3), hash: "hash".to_string() }
            },
        ]
    );
}

#[test]
fn a_user_may_not_be_registered() {
    let (_, end) = register(vec![Event::UserBuilt(Err("too short".to_string()))]);
    assert_eq!(end, bad_request("too short"));
    let (performed, end) =
        register(vec![Event::UserBuilt(Ok(user())), Event::User(Some(user()))]);
    assert_eq!(end, bad_request("User with username ada already exists"));
    assert_eq!(performed.len(), 2);
}

#[test]
fn a_user_may_not_be_stored() {
    let start = || {
        vec![
            Event::UserBuilt(Ok(user())),
            Event::User(None),
            Event::PasswordHashed("hash".to_string()),
        ]
    };
    let mut events = start();
    events.push(Event::Written(false));
    let (performed, end) = register(events);
    assert_eq!(end, database_failed());
    assert_eq!(performed.len(), 4);
    let mut events = start();
    events.push(Event::Written(true));
    events.push(Event::Written(false));
    assert_eq!(register(events).1, database_failed());
}

fn credentials() -> Credentials {
    Credentials { username: "ada".to_string(), password: "pw".to_string() }
}

#[test]
fn a_user_logs_in() {
    let (performed, end) = run(
        Endpoint::Login,
        Payload::Login(credentials()),
        vec![
            Event::CredentialsValidated(Some(id(3))),
            Event::TokenIssued(Some(SecretToken::new("abc.def".to_string()))),
        ],
    );
    assert_eq!(end, success(Body::Session { user_id: id(3), token: "abc.def".to_string() }));
    assert_eq!(
        performed,
        [
            Action::ValidateCredentials { credentials: credentials() },
            Action::IssueToken { user_id: id(3), key: "among us" },
        ]
    );
}

#[test]
fn a_user_may_not_be_logged_in() {
    let login = |events| run(Endpoint::Login, Payload::Login(credentials()), events).1;
    assert_eq!(
        login(vec![Event::CredentialsValidated(None)]),
        Err(Rejection::Unauthorized { message: "Invalid credentials".to_string() })
    );
    assert_eq!(
        login(vec![Event::CredentialsValidated(Some(id(3))), Event::TokenIssued(None)]),
        Err(Rejection::InternalServerError {
            message: "Failed to generate session token.".to_string()
        })
    );
}

#[test]
fn secrets_show_what_they_hide() {
    assert_eq!(SecretToken::new("abc".to_string()).expose(), "abc");
    assert_eq!(SecretToken::new(String::new()).expose(), "");
}

#[test]
fn a_user_looks_at_themself() {
    let look = |events| run(Endpoint::QuerySelf, Payload::Nothing, events);
    let (performed, end) = look(vec![Event::User(Some(user()))]);
    assert_eq!(end, success(Body::User(user())));
    assert_eq!(performed, [Action::FetchUser { user_id: id(3) }]);
    assert_eq!(look(vec![Event::User(None)]).1, database_failed());
}

#[test]
fn a_guild_gets_its_owner() {
    let create = |events| {
        let payload = CreateGuild { name: "g".to_string() };
        run(Endpoint::CreateGuild, Payload::Guild(payload), events)
    };
    let (performed, end) = create(vec![
        Event::GuildBuilt(guild(3)),
        Event::Written(true),
        Event::Written(true),
    ]);
    assert_eq!(end, created(Body::Guild(guild(3))));
    assert_eq!(
        performed,
        [
            Action::BuildGuild {
                payload: CreateGuild { name: "g".to_string() },
                owner_id: id(3)
            },
            Action::CommitGuild { guild: guild(3) },
            Action::AddMember { guild: guild(3), user_id: id(3) },
        ]
    );
    let (performed, end) = create(vec![Event::GuildBuilt(guild(3)), Event::Written(false)]);
    assert_eq!(end, database_failed());
    assert_eq!(performed.len(), 2);
    let (_, end) = create(vec![
        Event::GuildBuilt(guild(3)),
        Event::Written(true),
        Event::Written(false),
    ]);
    assert_eq!(end, database_failed());
}

fn open_channel(events: Vec<Event>) -> (Vec<Action>, Result<Reply, Rejection>) {
    run(
        Endpoint::CreateChannel { guild_id: id(7) },
        Payload::Channel(CreateChannel { name: "c".to_string() }),
        events,
    )
}

#[test]
fn the_owner_creates_a_channel() {
    let (performed, end) = open_channel(vec![
        Event::User(Some(user())),
        Event::Guild(Some(guild(3))),
        Event::ChannelBuilt(channel()),
        Event::Written(true),
    ]);
    assert_eq!(end, created(Body::Channel(channel())));
    assert_eq!(
        performed,
        [
            Action::FetchUser { user_id: id(3) },
            Action::FetchGuild { guild_id: id(7) },
            Action::BuildChannel {
                payload: CreateChannel { name: "c".to_string() },
                guild_id: id(7)
            },
            Action::CommitChannel { channel: channel() },
        ]
    );
}

#[test]
fn a_channel_may_not_be_created() {
    assert_eq!(open_channel(vec![Event::User(None)]).1, database_failed());
    assert_eq!(
        open_channel(vec![Event::User(Some(user())), Event::Guild(None)]).1,
        bad_request("The requested guild does not exist.")
    );
    let (performed, end) =
        open_channel(vec![Event::User(Some(user())), Event::Guild(Some(guild(4)))]);
    assert_eq!(end, forbidden("You are not the owner of this guild."));
    assert_eq!(performed.len(), 2);
    let (_, end) = open_channel(vec![
        Event::User(Some(user())),
        Event::Guild(Some(guild(3))),
        Event::ChannelBuilt(channel()),
        Event::Written(false),
    ]);
    assert_eq!(end, database_failed());
}

#[test]
fn only_members_see_a_guild() {
    let look = |events| run(Endpoint::FetchGuild { guild_id: id(7) }, Payload::Nothing, events);
    let (performed, end) =
        look(vec![Event::Member(Some(member())), Event::Guild(Some(guild(3)))]);
    assert_eq!(end, success(Body::Guild(guild(3))));
    assert_eq!(
        performed,
        [
            Action::FetchMember { user_id: id(3), guild_id: id(7) },
            Action::FetchGuild { guild_id: id(7) },
        ]
    );
    let (performed, end) = look(vec![Event::Member(None)]);
    assert_eq!(end, forbidden("Not permitted to view resource."));
    assert_eq!(performed.len(), 1);
    let (_, end) = look(vec![Event::Member(Some(member())), Event::Guild(None)]);
    assert_eq!(end, database_failed());
}

#[test]
fn only_members_see_a_channel() {
    let look =
        |events| run(Endpoint::FetchChannel { channel_id: id(12) }, Payload::Nothing, events);
    let (performed, end) =
        look(vec![Event::Channel(Some(channel())), Event::Member(Some(member()))]);
    assert_eq!(end, success(Body::Channel(channel())));
    assert_eq!(
        performed,
        [
            Action::FetchChannel { channel_id: id(12) },
            Action::FetchMember { user_id: id(3), guild_id: id(7) },
        ]
    );
    assert_eq!(
        look(vec![Event::Channel(None)]).1,
        bad_request("Channel does not exist or is not available.")
    );
    assert_eq!(
        look(vec![Event::Channel(Some(channel())), Event::Member(None)]).1,
        forbidden("Not permitted to view resource.")
    );
}

#[test]
fn only_members_see_a_member() {
    let endpoint = Endpoint::FetchMember { guild_id: id(7), member_id: id(9) };
    let look = |events| run(endpoint, Payload::Nothing, events);
    let other = || Member {
        user: User { id: id(9), username: "bob".to_string() },
        guild_id: id(7),
    };
    let (performed, end) =
        look(vec![Event::Member(Some(other())), Event::Member(Some(member()))]);
    assert_eq!(end, success(Body::Member(other())));
    assert_eq!(
        performed,
        [
            Action::FetchMember { user_id: id(9), guild_id: id(7) },
            Action::FetchMember { user_id: id(3), guild_id: id(7) },
        ]
    );
    assert_eq!(
        look(vec![Event::Member(None)]).1,
        bad_request("Member does not exist or is not available.")
    );
    assert_eq!(
        look(vec![Event::Member(Some(other())), Event::Member(None)]).1,
        forbidden("Not permitted to view resource.")
    );
}

#[test]
fn a_user_looks_at_themself_in_a_guild() {
    let endpoint = Endpoint::FetchMemberSelf { guild_id: id(7) };
    let look = |events| run(endpoint, Payload::Nothing, events);
    let (performed, end) = look(vec![Event::Member(Some(member()))]);
    assert_eq!(end, success(Body::Member(member())));
    assert_eq!(performed, [Action::FetchMember { user_id: id(3), guild_id: id(7) }]);
    assert_eq!(
        look(vec![Event::Member(None)]).1,
        bad_request("Member does not exist or is not available.")
    );
}

#[test]
fn a_user_looks_at_their_guilds() {
    let look = |events| run(Endpoint::FetchSelfGuilds, Payload::Nothing, events);
    let (performed, end) = look(vec![Event::Guilds(Some(vec![guild(3), guild(4)]))]);
    assert_eq!(end, success(Body::Guilds(vec![guild(3), guild(4)])));
    assert_eq!(performed, [Action::FetchGuildsOf { user_id: id(3) }]);
    assert_eq!(look(vec![Event::Guilds(None)]).1, database_failed());
}

#[test]
fn handlers_start_with_what_their_route_asks_for() {
    let guarded = Endpoint::FetchGuild { guild_id: id(7) };
    assert!(begin(guarded, None, Payload::Nothing).is_none());
    assert!(begin(guarded, token(), Payload::Login(credentials())).is_none());
    assert!(begin(guarded, token(), Payload::Nothing).is_some());
    assert!(begin(Endpoint::Login, None, Payload::Login(credentials())).is_some());
    assert!(begin(Endpoint::Login, None, Payload::Nothing).is_none());
}

#[test]
fn handlers_wait_for_what_they_asked_for() {
    match begin(Endpoint::QuerySelf, token(), Payload::Nothing).unwrap() {
        Step::Perform { flow, action } => {
            assert_eq!(action, Action::FetchUser { user_id: id(3) });
            assert!(is_awaited(&flow, &Event::User(None)));
            assert!(!is_awaited(&flow, &Event::Dispatched));
            assert!(!is_awaited(&flow, &Event::Guilds(None)));
        }
        _ => unreachable!(),
    }
}

#[test]
fn replies_have_their_status_code() {
    assert_eq!(Status::Success.code(), 200);
    assert_eq!(Status::Created.code(), 201);
}
