use chat_backend::effects::{Action, Event};
use chat_backend::flow::{advance, Step};
use chat_backend::handlers::{begin, Payload};
use chat_backend::model::{
    Channel, CreateChannel, CreateGuild, CreateUser, Guild, Member, Snowflake, Token, User,
};
use chat_backend::reply::{Body, Rejection, Reply, Status};
use chat_backend::routes::Endpoint;
use std::collections::{HashMap, HashSet};

/// A store that keeps everything in memory and gives out ids in turn.
struct Store {
    users: HashMap<u64, User>,
    guilds: HashMap<u64, Guild>,
    channels: HashMap<u64, Channel>,
    members: HashSet<(u64, u64)>,
    last_id: u64,
    writes: u64,
}

impl Store {
    fn new() -> Store {
        Store {
            users: HashMap::new(),
            guilds: HashMap::new(),
            channels: HashMap::new(),
            members: HashSet::new(),
            last_id: 0,
            writes: 0,
        }
    }

    fn new_id(&mut self) -> Snowflake {
        self.last_id += 1;
        Snowflake { value: self.last_id }
    }

    fn perform(&mut self, action: Action) -> Event {
        match action {
            Action::FetchUser { user_id } => Event::User(self.users.get(&user_id.value).cloned()),
            Action::FetchUserByUsername { username } => {
                Event::User(self.users.values().find(|user| user.username == username).cloned())
            }
            Action::FetchGuild { guild_id } => {
                Event::Guild(self.guilds.get(&guild_id.value).cloned())
            }
            Action::FetchChannel { channel_id } => {
                Event::Channel(self.channels.get(&channel_id.value).cloned())
            }
            Action::FetchMember { user_id, guild_id } => {
                if self.members.contains(&(user_id.value, guild_id.value)) {
                    let user = self.users[&user_id.value].clone();
                    Event::Member(Some(Member { user, guild_id }))
                } else {
                    Event::Member(None)
                }
            }
            Action::FetchGuildsOf { user_id } => {
                let ids = self.members.iter().filter(|(user, _)| *user == user_id.value);
                Event::Guilds(Some(ids.map(|(_, guild)| self.guilds[guild].clone()).collect()))
            }
            Action::BuildUser { payload } => {
                Event::UserBuilt(Ok(User { id: self.new_id(), username: payload.username }))
            }
            Action::BuildGuild { payload, owner_id } => {
                Event::GuildBuilt(Guild { id: self.new_id(), name: payload.name, owner_id })
            }
            Action::BuildChannel { payload, guild_id } => {
                Event::ChannelBuilt(Channel { id: self.new_id(), guild_id, name: payload.name })
            }
            Action::HashPassword { password } => Event::PasswordHashed(format!("#{}", password)),
            Action::CommitUser { user } => {
                self.users.insert(user.id.value, user);
                self.written()
            }
            Action::CommitCredentials { .. } => self.written(),
            Action::CommitGuild { guild } => {
                self.guilds.insert(guild.id.value, guild);
                self.written()
            }
            Action::CommitChannel { channel } => {
                self.channels.insert(channel.id.value, channel);
                self.written()
            }
            Action::AddMember { guild, user_id } => {
                self.members.insert((user_id.value, guild.id.value));
                self.written()
            }
            other => panic!("{:?}", other),
        }
    }

    fn written(&mut self) -> Event {
        self.writes += 1;
        Event::Written(true)
    }

    fn ask(
        &mut self,
        endpoint: Endpoint,
        token: Option<Token>,
        payload: Payload,
    ) -> Result<Reply, Rejection> {
        let mut step = begin(endpoint, token, payload).unwrap();
        loop {
            match step {
                Step::Perform { flow, action } => step = advance(flow, self.perform(action)),
                Step::Answer(reply) => return Ok(reply),
                Step::Refuse(rejection) => return Err(rejection),
            }
        }
    }

    fn register(&mut self, username: &str) -> User {
        let payload =
            CreateUser { username: username.to_string(), password: "secret".to_string() };
        match self.ask(Endpoint::CreateUser, None, Payload::User(payload)).unwrap() {
            Reply { status: Status::Created, body: Body::User(user) } => user,
            other => panic!("{:?}", other),
        }
    }

    fn found(&mut self, token: Token, name: &str) -> Guild {
        let payload = CreateGuild { name: name.to_string() };
        match self.ask(Endpoint::CreateGuild, Some(token), Payload::Guild(payload)).unwrap() {
            Reply { status: Status::Created, body: Body::Guild(guild) } => guild,
            other => panic!("{:?}", other),
        }
    }

    fn open(
        &mut self,
        token: Token,
        guild_id: Snowflake,
        name: &str,
    ) -> Result<Reply, Rejection> {
        let payload = CreateChannel { name: name.to_string() };
        self.ask(
            Endpoint::CreateChannel { guild_id },
            Some(token),
            Payload::Channel(payload),
        )
    }
}

fn success(body: Body) -> Result<Reply, Rejection> {
    Ok(Reply { status: Status::Success, body })
}

#[test]
fn a_registered_user_is_shown_to_themself() {
    let mut store = Store::new();
    let user = store.register("ada");
    assert_eq!(user, User { id: Snowflake { value: 1 }, username: "ada".to_string() });
    let token = Token { user_id: user.id };
    for _ in 0..2 {
        assert_eq!(
            store.ask(Endpoint::QuerySelf, Some(token), Payload::Nothing),
            success(Body::User(user.clone()))
        );
    }
}

#[test]
fn a_created_guild_is_stored_and_shown_to_its_creator() {
    let mut store = Store::new();
    let token = Token { user_id: store.register("ada").id };
    let guild = store.found(token, "g");
    assert_eq!(guild.owner_id, token.user_id);
    assert_eq!(store.guilds[&guild.id.value], guild);
    assert!(store.members.contains(&(token.user_id.value, guild.id.value)));
    let writes = store.writes;
    for _ in 0..2 {
        assert_eq!(
            store.ask(
                Endpoint::FetchGuild { guild_id: guild.id },
                Some(token),
                Payload::Nothing
            ),
            success(Body::Guild(guild.clone()))
        );
    }
    assert_eq!(store.writes, writes);
}

#[test]
fn the_creator_of_a_guild_creates_channels_in_it() {
    let mut store = Store::new();
    let token = Token { user_id: store.register("ada").id };
    let other = Token { user_id: store.register("bob").id };
    let guild = store.found(token, "g");
    let channel =
        Channel { id: Snowflake { value: 4 }, guild_id: guild.id, name: "c".to_string() };
    assert_eq!(
        store.open(token, guild.id, "c"),
        Ok(Reply { status: Status::Created, body: Body::Channel(channel.clone()) })
    );
    assert_eq!(store.channels[&4], channel);
    assert_eq!(
        store.open(other, guild.id, "d"),
        Err(Rejection::Forbidden { message: "You are not the owner of this guild.".to_string() })
    );
}

#[test]
fn a_created_channel_is_shown_to_its_creator_again_and_again() {
    let mut store = Store::new();
    let token = Token { user_id: store.register("ada").id };
    let other = Token { user_id: store.register("bob").id };
    let guild = store.found(token, "g");
    let channel = match store.open(token, guild.id, "c").unwrap().body {
        Body::Channel(channel) => channel,
        body => panic!("{:?}", body),
    };
    let writes = store.writes;
    let endpoint = || Endpoint::FetchChannel { channel_id: channel.id };
    for _ in 0..3 {
        assert_eq!(
            store.ask(endpoint(), Some(token), Payload::Nothing),
            success(Body::Channel(channel.clone()))
        );
    }
    assert_eq!(store.writes, writes);
    assert_eq!(
        store.ask(endpoint(), Some(other), Payload::Nothing),
        Err(Rejection::Forbidden { message: "Not permitted to view resource.".to_string() })
    );
}

#[test]
fn a_name_is_not_given_twice() {
    let mut store = Store::new();
    let user = store.register("ada");
    let writes = store.writes;
    for password in ["secret", "other"] {
        let payload =
            CreateUser { username: "ada".to_string(), password: password.to_string() };
        assert_eq!(
            store.ask(Endpoint::CreateUser, None, Payload::User(payload)),
            Err(Rejection::BadRequest {
                message: "User with username ada already exists".to_string()
            })
        );
    }
    assert_eq!(store.writes, writes);
    assert_eq!(store.users.len(), 1);
    assert_eq!(store.users[&user.id.value], user);
    store.register("bob");
    assert_eq!(store.users.len(), 2);
}

#[test]
fn the_creator_of_a_guild_is_a_member_of_it() {
    let mut store = Store::new();
    let user = store.register("ada");
    let token = Token { user_id: user.id };
    let other = Token { user_id: store.register("bob").id };
    let guild = store.found(token, "g");
    let foreign = store.found(other, "h");
    let member = Member { user, guild_id: guild.id };
    assert_eq!(
        store.ask(
            Endpoint::FetchMemberSelf { guild_id: guild.id },
            Some(token),
            Payload::Nothing
        ),
        success(Body::Member(member.clone()))
    );
    assert_eq!(
        store.ask(
            Endpoint::FetchMember { guild_id: guild.id, member_id: token.user_id },
            Some(token),
            Payload::Nothing
        ),
        success(Body::Member(member))
    );
    assert_eq!(
        store.ask(Endpoint::FetchSelfGuilds, Some(token), Payload::Nothing),
        success(Body::Guilds(vec![guild]))
    );
    assert_eq!(
        store.ask(
            Endpoint::FetchMemberSelf { guild_id: foreign.id },
            Some(token),
            Payload::Nothing
        ),
        Err(Rejection::BadRequest {
            message: "Member does not exist or is not available.".to_string()
        })
    );
}
