//! What one request writes and a later one finds.

use crate::channels::{create_channel_start, fetch_channel_start};
use crate::effects::{answers, Action, Event};
use crate::flow::{created, database_failed, next, success, waits_for, Flow, StepView};
use crate::guilds::{create_guild_start, fetch_guild_start, fetch_self_guilds_start};
use crate::handlers::{start, Payload};
use crate::laws::{is_sound, run, writes};
use crate::members::{fetch_member_self_start, fetch_member_start};
use crate::model::{
    Channel, CreateChannel, CreateGuild, CreateUser, Guild, Member, Snowflake, Token, User,
};
use crate::reply::{BodyView, RejectionView};
use crate::routes::Endpoint;
use crate::users::{name_taken, user_create_start, user_getself_start, UserCreateFlow};
use vstd::prelude::*;

verus! {

/// What is stored, as far as requests find it again.
pub struct Stored {
    pub users: Map<Snowflake, User>,
    pub guilds: Map<Snowflake, Guild>,
    pub channels: Map<Snowflake, Channel>,
    /// Who is a member of what: pairs of a user's id and a guild's.
    pub members: Set<(Snowflake, Snowflake)>,
    /// The password hashes, under the ids of their users.
    pub hashes: Map<Snowflake, String>,
}

/// Somebody who is stored has the name.
pub open spec fn is_taken(stored: Stored, username: Seq<char>) -> bool {
    exists|id: Snowflake| #[trigger]
        stored.users.contains_key(id) && stored.users[id].username@ == username
}

/// `guild` is stored, and the user is a member of it.
pub open spec fn belongs_to(stored: Stored, user_id: Snowflake, guild: Guild) -> bool {
    &&& stored.members.contains((user_id, guild.id))
    &&& stored.guilds.contains_key(guild.id)
    &&& stored.guilds[guild.id] == guild
}

/// `member` is the record of the user in the guild. It holds the user as they are stored.
pub open spec fn is_member_record(
    stored: Stored,
    member: Member,
    user_id: Snowflake,
    guild_id: Snowflake,
) -> bool {
    &&& member.guild_id == guild_id
    &&& member.user.id == user_id
    &&& stored.users.contains_key(user_id) ==> member.user == stored.users[user_id]
}

/// `event` tells of `action` what a store that holds `stored` makes of it: records are found just
/// as they are held, and a new one is called what was asked for and belongs to whom it was made
/// for.
pub open spec fn tells(stored: Stored, action: Action, event: Event) -> bool {
    &&& answers(event, action)
    &&& match action {
        Action::FetchUser { user_id } => event == Event::User(stored.users.get(user_id)),
        Action::FetchUserByUsername { username } => match event->User_0 {
            Some(user) => {
                &&& user.username@ == username@
                &&& stored.users.contains_value(user)
            },
            None => !is_taken(stored, username@),
        },
        Action::FetchGuild { guild_id } => event == Event::Guild(stored.guilds.get(guild_id)),
        Action::FetchChannel { channel_id } => event == Event::Channel(
            stored.channels.get(channel_id),
        ),
        Action::FetchMember { user_id, guild_id } => {
            &&& event->Member_0 is Some <==> stored.members.contains((user_id, guild_id))
            &&& event->Member_0 matches Some(member) ==> is_member_record(
                stored,
                member,
                user_id,
                guild_id,
            )
        },
        Action::FetchGuildsOf { user_id } => event->Guilds_0 matches Some(guilds) ==> forall|
            guild: Guild,
        | #[trigger] guilds@.contains(guild) <==> belongs_to(stored, user_id, guild),
        Action::BuildUser { payload } => event->UserBuilt_0 matches Ok(user)
            ==> user.username@ == payload.username@,
        Action::BuildGuild { owner_id, .. } => event->GuildBuilt_0.owner_id == owner_id,
        Action::BuildChannel { guild_id, .. } => event->ChannelBuilt_0.guild_id == guild_id,
        _ => true,
    }
}

/// What is stored after `action`, which `event` tells the outcome of.
pub open spec fn written(stored: Stored, action: Action, event: Event) -> Stored {
    if event == Event::Written(true) {
        match action {
            Action::CommitUser { user } => Stored {
                users: stored.users.insert(user.id, user),
                ..stored
            },
            Action::CommitCredentials { credentials } => Stored {
                hashes: stored.hashes.insert(credentials.user_id, credentials.hash),
                ..stored
            },
            Action::CommitGuild { guild } => Stored {
                guilds: stored.guilds.insert(guild.id, guild),
                ..stored
            },
            Action::CommitChannel { channel } => Stored {
                channels: stored.channels.insert(channel.id, channel),
                ..stored
            },
            Action::AddMember { guild, user_id } => Stored {
                members: stored.members.insert((user_id, guild.id)),
                ..stored
            },
            _ => stored,
        }
    } else {
        stored
    }
}

/// A handler that goes on from `step` is told by `events` what a store makes of its actions that
/// holds `stored` at first.
pub open spec fn is_told_by(stored: Stored, step: StepView, events: Seq<Event>) -> bool
    decreases events.len(),
{
    events.len() > 0 ==> match step {
        StepView::Perform { flow, action } => tells(stored, action, events[0]) && is_told_by(
            written(stored, action, events[0]),
            next(flow, events[0]),
            events.skip(1),
        ),
        _ => false,
    }
}

/// What is stored once a handler that goes on from `step` has been told `events`.
pub open spec fn stored_after(stored: Stored, step: StepView, events: Seq<Event>) -> Stored
    decreases events.len(),
{
    match step {
        StepView::Perform { flow, action } => if events.len() == 0 {
            stored
        } else {
            stored_after(
                written(stored, action, events[0]),
                next(flow, events[0]),
                events.skip(1),
            )
        },
        _ => stored,
    }
}

/// A user, once registered, is stored under the name that they asked for, which nobody had.
pub proof fn law_created_user_is_stored(
    stored: Stored,
    payload: CreateUser,
    events: Seq<Event>,
    user: User,
)
    requires
        is_told_by(stored, user_create_start(payload), events),
        run(user_create_start(payload), events).end == created(BodyView::User(user)),
    ensures
        user.username@ == payload.username@,
        !is_taken(stored, payload.username@),
        ({
            let after = stored_after(stored, user_create_start(payload), events);
            &&& after.users == stored.users.insert(user.id, user)
            &&& after.guilds == stored.guilds
            &&& after.channels == stored.channels
            &&& after.members == stored.members
            &&& after.hashes == stored.hashes.insert(user.id, events[2]->PasswordHashed_0)
        }),
{
    reveal_with_fuel(run, 6);
    reveal_with_fuel(is_told_by, 6);
    reveal_with_fuel(stored_after, 6);
}

/// A guild, once created, is stored with the user who created it as its owner and its member.
pub proof fn law_created_guild_is_stored(
    stored: Stored,
    token: Token,
    payload: CreateGuild,
    events: Seq<Event>,
    guild: Guild,
)
    requires
        is_told_by(stored, create_guild_start(token, payload), events),
        run(create_guild_start(token, payload), events).end == created(BodyView::Guild(guild)),
    ensures
        guild.owner_id == token.user_id,
        ({
            let after = stored_after(stored, create_guild_start(token, payload), events);
            &&& after.users == stored.users
            &&& after.guilds == stored.guilds.insert(guild.id, guild)
            &&& after.channels == stored.channels
            &&& after.members == stored.members.insert((token.user_id, guild.id))
            &&& after.hashes == stored.hashes
        }),
{
    reveal_with_fuel(run, 4);
    reveal_with_fuel(is_told_by, 4);
    reveal_with_fuel(stored_after, 4);
}

/// A channel, once created, is stored, and belongs to the guild that it was asked for in.
pub proof fn law_created_channel_is_stored(
    stored: Stored,
    guild_id: Snowflake,
    token: Token,
    payload: CreateChannel,
    events: Seq<Event>,
    channel: Channel,
)
    requires
        is_told_by(stored, create_channel_start(guild_id, token, payload), events),
        run(create_channel_start(guild_id, token, payload), events).end == created(
            BodyView::Channel(channel),
        ),
    ensures
        channel.guild_id == guild_id,
        ({
            let after = stored_after(
                stored,
                create_channel_start(guild_id, token, payload),
                events,
            );
            &&& after.users == stored.users
            &&& after.guilds == stored.guilds
            &&& after.channels == stored.channels.insert(channel.id, channel)
            &&& after.members == stored.members
            &&& after.hashes == stored.hashes
        }),
{
    reveal_with_fuel(run, 5);
    reveal_with_fuel(is_told_by, 5);
    reveal_with_fuel(stored_after, 5);
}

/// Whoever asks for a name that a registered user has is refused, whatever the password, and
/// nothing is written.
pub proof fn law_names_are_not_given_twice(
    stored: Stored,
    payload: CreateUser,
    events: Seq<Event>,
    user: User,
    later: Stored,
    again: CreateUser,
    later_events: Seq<Event>,
)
    requires
        is_told_by(stored, user_create_start(payload), events),
        run(user_create_start(payload), events).end == created(BodyView::User(user)),
        later.users.contains_key(user.id),
        later.users[user.id] == stored_after(
            stored,
            user_create_start(payload),
            events,
        ).users[user.id],
        again.username@ == payload.username@,
        is_told_by(later, user_create_start(again), later_events),
        !(run(user_create_start(again), later_events).end is Perform),
    ensures
        ({
            let run = run(user_create_start(again), later_events);
            &&& run.end == StepView::Refuse(
                RejectionView::BadRequest {
                    message: match later_events[0]->UserBuilt_0 {
                        Ok(_) => name_taken(again.username@),
                        Err(why) => why@,
                    },
                },
            )
            &&& !writes(run.performed)
            &&& stored_after(later, user_create_start(again), later_events) == later
        }),
{
    law_created_user_is_stored(stored, payload, events, user);
    assert(is_taken(later, again.username@));
    reveal_with_fuel(run, 3);
    reveal_with_fuel(is_told_by, 3);
    reveal_with_fuel(stored_after, 3);
}

/// No two users have the same name.
pub open spec fn names_are_unique(stored: Stored) -> bool {
    forall|a: Snowflake, b: Snowflake| #[trigger]
        stored.users.contains_key(a) && #[trigger] stored.users.contains_key(b)
            && stored.users[a].username@ == stored.users[b].username@ ==> a == b
}

/// A step that stores a user, or is about to, knows that nobody has the name.
spec fn has_free_name(stored: Stored, step: StepView) -> bool {
    match step {
        StepView::Perform { flow, action } => match flow {
            Flow::UserCreate(UserCreateFlow::Namesake { user, .. }) => action == (
            Action::FetchUserByUsername { username: user.username }),
            Flow::UserCreate(UserCreateFlow::Hash { user }) => {
                &&& !(action is CommitUser)
                &&& !is_taken(stored, user.username@)
            },
            Flow::UserCreate(UserCreateFlow::CommitUser { user, .. }) => {
                &&& action == Action::CommitUser { user }
                &&& !is_taken(stored, user.username@)
            },
            _ => !(action is CommitUser),
        },
        _ => true,
    }
}

proof fn lemma_names_stay_unique(stored: Stored, step: StepView, events: Seq<Event>)
    requires
        is_sound(step),
        has_free_name(stored, step),
        is_told_by(stored, step, events),
        names_are_unique(stored),
    ensures
        names_are_unique(stored_after(stored, step, events)),
    decreases events.len(),
{
    if let StepView::Perform { flow, action } = step {
        if events.len() > 0 {
            assert(waits_for(flow, events[0]));
            let after = written(stored, action, events[0]);
            assert(names_are_unique(after));
            lemma_names_stay_unique(after, next(flow, events[0]), events.skip(1));
        }
    }
}

/// If no two users have the same name, no request makes it otherwise.
pub proof fn law_names_stay_unique(
    stored: Stored,
    endpoint: Endpoint,
    token: Option<Token>,
    payload: Payload,
    events: Seq<Event>,
)
    requires
        names_are_unique(stored),
        start(endpoint, token, payload) matches Some(step) && is_told_by(stored, step, events),
    ensures
        names_are_unique(stored_after(stored, start(endpoint, token, payload)->0, events)),
{
    lemma_names_stay_unique(stored, start(endpoint, token, payload)->0, events);
}

/// Reading leaves no trace: nothing is written, nobody is told, and what is stored stays.
pub open spec fn is_silent(stored: Stored, step: StepView, events: Seq<Event>) -> bool {
    let performed = run(step, events).performed;
    &&& !writes(performed)
    &&& forall|i: int| 0 <= i < performed.len() ==> !(#[trigger] performed[i] is Dispatch)
    &&& stored_after(stored, step, events) == stored
}

/// A user is shown to themself just as they are stored, and so as often as they ask.
pub proof fn law_user_is_read_back(stored: Stored, token: Token, events: Seq<Event>)
    requires
        stored.users.contains_key(token.user_id),
        is_told_by(stored, user_getself_start(token), events),
        !(run(user_getself_start(token), events).end is Perform),
    ensures
        run(user_getself_start(token), events).end == success(
            BodyView::User(stored.users[token.user_id]),
        ),
        is_silent(stored, user_getself_start(token), events),
{
    reveal_with_fuel(run, 2);
    reveal_with_fuel(is_told_by, 2);
    reveal_with_fuel(stored_after, 2);
}

/// A guild is shown to its members just as it is stored, and so as often as they ask.
pub proof fn law_guild_is_read_back(
    stored: Stored,
    guild_id: Snowflake,
    token: Token,
    events: Seq<Event>,
)
    requires
        stored.guilds.contains_key(guild_id),
        stored.members.contains((token.user_id, guild_id)),
        is_told_by(stored, fetch_guild_start(guild_id, token), events),
        !(run(fetch_guild_start(guild_id, token), events).end is Perform),
    ensures
        run(fetch_guild_start(guild_id, token), events).end == success(
            BodyView::Guild(stored.guilds[guild_id]),
        ),
        is_silent(stored, fetch_guild_start(guild_id, token), events),
{
    reveal_with_fuel(run, 3);
    reveal_with_fuel(is_told_by, 3);
    reveal_with_fuel(stored_after, 3);
}

/// A channel is shown to the members of its guild just as it is stored, and so as often as they
/// ask.
pub proof fn law_channel_is_read_back(
    stored: Stored,
    channel_id: Snowflake,
    token: Token,
    events: Seq<Event>,
)
    requires
        stored.channels.contains_key(channel_id),
        stored.members.contains((token.user_id, stored.channels[channel_id].guild_id)),
        is_told_by(stored, fetch_channel_start(channel_id, token), events),
        !(run(fetch_channel_start(channel_id, token), events).end is Perform),
    ensures
        run(fetch_channel_start(channel_id, token), events).end == success(
            BodyView::Channel(stored.channels[channel_id]),
        ),
        is_silent(stored, fetch_channel_start(channel_id, token), events),
{
    reveal_with_fuel(run, 3);
    reveal_with_fuel(is_told_by, 3);
    reveal_with_fuel(stored_after, 3);
}

/// Whoever creates a guild may create channels in it. As long as the guild is stored as it was
/// created, a channel is made for that guild and answered to its creator, unless it could not be
/// stored.
pub proof fn law_guild_creator_creates_channels(
    stored: Stored,
    token: Token,
    guild_payload: CreateGuild,
    guild_events: Seq<Event>,
    guild: Guild,
    later: Stored,
    payload: CreateChannel,
    events: Seq<Event>,
)
    requires
        is_told_by(stored, create_guild_start(token, guild_payload), guild_events),
        run(create_guild_start(token, guild_payload), guild_events).end == created(
            BodyView::Guild(guild),
        ),
        later.guilds.contains_key(guild.id),
        later.guilds[guild.id] == stored_after(
            stored,
            create_guild_start(token, guild_payload),
            guild_events,
        ).guilds[guild.id],
        later.users.contains_key(token.user_id),
        later.users[token.user_id].id == token.user_id,
        is_told_by(later, create_channel_start(guild.id, token, payload), events),
        !(run(create_channel_start(guild.id, token, payload), events).end is Perform),
    ensures
        ({
            let run = run(create_channel_start(guild.id, token, payload), events);
            let channel = events[2]->ChannelBuilt_0;
            &&& events.len() == 4
            &&& run.performed[2] == Action::BuildChannel { payload, guild_id: guild.id }
            &&& run.performed[3] == Action::CommitChannel { channel }
            &&& channel.guild_id == guild.id
            &&& run.end == if events[3] == Event::Written(true) {
                created(BodyView::Channel(channel))
            } else {
                database_failed()
            }
        }),
{
    law_created_guild_is_stored(stored, token, guild_payload, guild_events, guild);
    reveal_with_fuel(run, 5);
    reveal_with_fuel(is_told_by, 5);
}

/// Whoever created a guild and then a channel in it is shown that channel, as it was answered
/// when it was created, and is shown it again whenever they ask again.
pub proof fn law_created_channel_is_read_back(
    stored: Stored,
    token: Token,
    guild_payload: CreateGuild,
    guild_events: Seq<Event>,
    guild: Guild,
    payload: CreateChannel,
    events: Seq<Event>,
    channel: Channel,
    first: Seq<Event>,
    again: Seq<Event>,
)
    requires
        is_told_by(stored, create_guild_start(token, guild_payload), guild_events),
        run(create_guild_start(token, guild_payload), guild_events).end == created(
            BodyView::Guild(guild),
        ),
        ({
            let with_guild = stored_after(
                stored,
                create_guild_start(token, guild_payload),
                guild_events,
            );
            let creating = create_channel_start(guild.id, token, payload);
            let with_channel = stored_after(with_guild, creating, events);
            let reading = fetch_channel_start(channel.id, token);
            &&& is_told_by(with_guild, creating, events)
            &&& run(creating, events).end == created(BodyView::Channel(channel))
            &&& is_told_by(with_channel, reading, first)
            &&& !(run(reading, first).end is Perform)
            &&& is_told_by(stored_after(with_channel, reading, first), reading, again)
            &&& !(run(reading, again).end is Perform)
        }),
    ensures
        run(fetch_channel_start(channel.id, token), first).end == success(
            BodyView::Channel(channel),
        ),
        run(fetch_channel_start(channel.id, token), again).end == success(
            BodyView::Channel(channel),
        ),
{
    let making = create_guild_start(token, guild_payload);
    let with_guild = stored_after(stored, making, guild_events);
    let creating = create_channel_start(guild.id, token, payload);
    let with_channel = stored_after(with_guild, creating, events);
    law_created_guild_is_stored(stored, token, guild_payload, guild_events, guild);
    law_created_channel_is_stored(with_guild, guild.id, token, payload, events, channel);
    law_channel_is_read_back(with_channel, channel.id, token, first);
    law_channel_is_read_back(with_channel, channel.id, token, again);
}

/// A member of a guild is shown their own record in it, and so as often as they ask.
pub proof fn law_own_membership_is_read_back(
    stored: Stored,
    guild_id: Snowflake,
    token: Token,
    events: Seq<Event>,
)
    requires
        stored.members.contains((token.user_id, guild_id)),
        is_told_by(stored, fetch_member_self_start(guild_id, token), events),
        !(run(fetch_member_self_start(guild_id, token), events).end is Perform),
    ensures
        ({
            let member = events[0]->Member_0->0;
            &&& run(fetch_member_self_start(guild_id, token), events).end == success(
                BodyView::Member(member),
            )
            &&& is_member_record(stored, member, token.user_id, guild_id)
        }),
        is_silent(stored, fetch_member_self_start(guild_id, token), events),
{
    reveal_with_fuel(run, 2);
    reveal_with_fuel(is_told_by, 2);
    reveal_with_fuel(stored_after, 2);
}

/// A member of a guild is shown the record of any member of it, and so as often as they ask.
pub proof fn law_membership_is_read_back(
    stored: Stored,
    guild_id: Snowflake,
    member_id: Snowflake,
    token: Token,
    events: Seq<Event>,
)
    requires
        stored.members.contains((token.user_id, guild_id)),
        stored.members.contains((member_id, guild_id)),
        is_told_by(stored, fetch_member_start(guild_id, member_id, token), events),
        !(run(fetch_member_start(guild_id, member_id, token), events).end is Perform),
    ensures
        ({
            let member = events[0]->Member_0->0;
            &&& run(fetch_member_start(guild_id, member_id, token), events).end == success(
                BodyView::Member(member),
            )
            &&& is_member_record(stored, member, member_id, guild_id)
        }),
        is_silent(stored, fetch_member_start(guild_id, member_id, token), events),
{
    reveal_with_fuel(run, 3);
    reveal_with_fuel(is_told_by, 3);
    reveal_with_fuel(stored_after, 3);
}

/// A user is shown the guilds that they are a member of, all of them and no others, unless they
/// could not be fetched.
pub proof fn law_guilds_are_read_back(stored: Stored, token: Token, events: Seq<Event>)
    requires
        is_told_by(stored, fetch_self_guilds_start(token), events),
        !(run(fetch_self_guilds_start(token), events).end is Perform),
    ensures
        match events[0]->Guilds_0 {
            None => run(fetch_self_guilds_start(token), events).end == database_failed(),
            Some(guilds) => {
                &&& run(fetch_self_guilds_start(token), events).end == success(
                    BodyView::Guilds(guilds@),
                )
                &&& forall|guild: Guild| #[trigger]
                    guilds@.contains(guild) <==> belongs_to(stored, token.user_id, guild)
            },
        },
        is_silent(stored, fetch_self_guilds_start(token), events),
{
    reveal_with_fuel(run, 2);
    reveal_with_fuel(is_told_by, 2);
    reveal_with_fuel(stored_after, 2);
}

/// Whoever has created a guild is a member of it: they are shown the guild, their own record in
/// it, in both ways of asking, and the guild among all of theirs, unless those could not be
/// fetched.
pub proof fn law_guild_creator_is_member(
    stored: Stored,
    token: Token,
    payload: CreateGuild,
    events: Seq<Event>,
    guild: Guild,
    reading: Seq<Event>,
    own: Seq<Event>,
    named: Seq<Event>,
    listing: Seq<Event>,
)
    requires
        is_told_by(stored, create_guild_start(token, payload), events),
        run(create_guild_start(token, payload), events).end == created(BodyView::Guild(guild)),
        ({
            let after = stored_after(stored, create_guild_start(token, payload), events);
            &&& is_told_by(after, fetch_guild_start(guild.id, token), reading)
            &&& !(run(fetch_guild_start(guild.id, token), reading).end is Perform)
            &&& is_told_by(after, fetch_member_self_start(guild.id, token), own)
            &&& !(run(fetch_member_self_start(guild.id, token), own).end is Perform)
            &&& is_told_by(after, fetch_member_start(guild.id, token.user_id, token), named)
            &&& !(run(fetch_member_start(guild.id, token.user_id, token), named).end is Perform)
            &&& is_told_by(after, fetch_self_guilds_start(token), listing)
            &&& !(run(fetch_self_guilds_start(token), listing).end is Perform)
        }),
    ensures
        run(fetch_guild_start(guild.id, token), reading).end == success(BodyView::Guild(guild)),
        ({
            let member = own[0]->Member_0->0;
            &&& run(fetch_member_self_start(guild.id, token), own).end == success(
                BodyView::Member(member),
            )
            &&& is_member_record(stored, member, token.user_id, guild.id)
        }),
        ({
            let member = named[0]->Member_0->0;
            &&& run(fetch_member_start(guild.id, token.user_id, token), named).end == success(
                BodyView::Member(member),
            )
            &&& is_member_record(stored, member, token.user_id, guild.id)
        }),
        match listing[0]->Guilds_0 {
            None => run(fetch_self_guilds_start(token), listing).end == database_failed(),
            Some(guilds) => {
                &&& run(fetch_self_guilds_start(token), listing).end == success(
                    BodyView::Guilds(guilds@),
                )
                &&& guilds@.contains(guild)
            },
        },
{
    let after = stored_after(stored, create_guild_start(token, payload), events);
    law_created_guild_is_stored(stored, token, payload, events, guild);
    law_guild_is_read_back(after, guild.id, token, reading);
    law_own_membership_is_read_back(after, guild.id, token, own);
    law_membership_is_read_back(after, guild.id, token.user_id, token, named);
    law_guilds_are_read_back(after, token, listing);
    assert(belongs_to(after, token.user_id, guild));
}

} // verus!
