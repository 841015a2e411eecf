//! The route table: which endpoint a path leads to, and what it asks of a request.

use crate::model::Snowflake;
use crate::path::{are_parts, law_path_is_taken_apart, path_of, path_segments, segments};
use crate::text::{
    chars_of, decimal, is_digit, law_decimal_is_read_back, lemma_decimal_has_no_slash, number,
    parse_number,
};
use vstd::prelude::*;

verus! {

/// The longest request body, in bytes, that an endpoint reads.
pub const BODY_LIMIT: u64 = 16_384;

#[derive(Clone, Copy, Debug, PartialEq, Eq, Structural)]
pub enum Method {
    Get,
    Post,
    Put,
    Patch,
    Delete,
    Options,
    Other,
}

/// What a request has to pass before its method is looked at.
#[derive(Clone, Copy, Debug, PartialEq, Eq, Structural)]
pub enum Guard {
    /// Nothing.
    Open,
    /// A valid session token.
    Token,
    /// A valid session token whose user is within the rate limit.
    TokenAndLimit,
}

/// What the body of a request holds.
#[derive(Clone, Copy, Debug, PartialEq, Eq, Structural)]
pub enum BodyKind {
    Nothing,
    Message,
    User,
    Login,
    Guild,
    Channel,
}

#[derive(Clone, Copy, Debug, PartialEq, Eq, Structural)]
pub enum RouteName {
    CreateMessage,
    CreateUser,
    Login,
    QuerySelf,
    CreateChannel,
    FetchChannel,
    CreateGuild,
    FetchGuild,
    FetchMember,
    FetchMemberSelf,
    FetchSelfGuilds,
}

/// One segment of a route's path.
#[derive(Clone, Copy, Debug, PartialEq, Eq)]
pub enum Piece {
    /// Exactly this text.
    Literal(&'static str),
    /// The decimal number of an id.
    Id,
}

/// One way to ask the server for something.
#[derive(Debug, PartialEq, Eq)]
pub struct Route {
    pub name: RouteName,
    pub pieces: Vec<Piece>,
    pub method: Method,
    pub guard: Guard,
    pub body: BodyKind,
}

#[verifier::ext_equal]
pub struct RouteView {
    pub name: RouteName,
    pub pieces: Seq<Piece>,
    pub method: Method,
    pub guard: Guard,
    pub body: BodyKind,
}

impl View for Route {
    type V = RouteView;

    open spec fn view(&self) -> RouteView {
        RouteView {
            name: self.name,
            pieces: self.pieces@,
            method: self.method,
            guard: self.guard,
            body: self.body,
        }
    }
}

/// A route with the ids that stand in the path.
#[derive(Clone, Copy, Debug, PartialEq, Eq, Structural)]
pub enum Endpoint {
    CreateMessage { channel_id: Snowflake },
    CreateUser,
    Login,
    QuerySelf,
    CreateChannel { guild_id: Snowflake },
    FetchChannel { channel_id: Snowflake },
    CreateGuild,
    FetchGuild { guild_id: Snowflake },
    FetchMember { guild_id: Snowflake, member_id: Snowflake },
    FetchMemberSelf { guild_id: Snowflake },
    FetchSelfGuilds,
}

/// The routes, in the order in which they are tried.
pub open spec fn routes() -> Seq<RouteView> {
    seq![
        RouteView {
            name: RouteName::CreateMessage,
            pieces: seq![Piece::Literal("channels"), Piece::Id, Piece::Literal("messages")],
            method: Method::Post,
            guard: Guard::TokenAndLimit,
            body: BodyKind::Message,
        },
        RouteView {
            name: RouteName::CreateUser,
            pieces: seq![Piece::Literal("users")],
            method: Method::Post,
            guard: Guard::Open,
            body: BodyKind::User,
        },
        RouteView {
            name: RouteName::Login,
            pieces: seq![Piece::Literal("users"), Piece::Literal("auth")],
            method: Method::Post,
            guard: Guard::Open,
            body: BodyKind::Login,
        },
        RouteView {
            name: RouteName::QuerySelf,
            pieces: seq![Piece::Literal("users"), Piece::Literal("@self")],
            method: Method::Get,
            guard: Guard::Token,
            body: BodyKind::Nothing,
        },
        RouteView {
            name: RouteName::CreateChannel,
            pieces: seq![Piece::Literal("guilds"), Piece::Id, Piece::Literal("channels")],
            method: Method::Post,
            guard: Guard::Token,
            body: BodyKind::Channel,
        },
        RouteView {
            name: RouteName::FetchChannel,
            pieces: seq![Piece::Literal("channels"), Piece::Id],
            method: Method::Get,
            guard: Guard::Token,
            body: BodyKind::Nothing,
        },
        RouteView {
            name: RouteName::CreateGuild,
            pieces: seq![Piece::Literal("guilds")],
            method: Method::Post,
            guard: Guard::Token,
            body: BodyKind::Guild,
        },
        RouteView {
            name: RouteName::FetchGuild,
            pieces: seq![Piece::Literal("guilds"), Piece::Id],
            method: Method::Get,
            guard: Guard::Token,
            body: BodyKind::Nothing,
        },
        RouteView {
            name: RouteName::FetchMember,
            pieces: seq![
                Piece::Literal("guilds"),
                Piece::Id,
                Piece::Literal("members"),
                Piece::Id,
            ],
            method: Method::Get,
            guard: Guard::Token,
            body: BodyKind::Nothing,
        },
        RouteView {
            name: RouteName::FetchMemberSelf,
            pieces: seq![
                Piece::Literal("guilds"),
                Piece::Id,
                Piece::Literal("members"),
                Piece::Literal("@self"),
            ],
            method: Method::Get,
            guard: Guard::Token,
            body: BodyKind::Nothing,
        },
        RouteView {
            name: RouteName::FetchSelfGuilds,
            pieces: seq![
                Piece::Literal("users"),
                Piece::Literal("@self"),
                Piece::Literal("guilds"),
            ],
            method: Method::Get,
            guard: Guard::Token,
            body: BodyKind::Nothing,
        },
    ]
}

fn route(
    name: RouteName,
    pieces: Vec<Piece>,
    method: Method,
    guard: Guard,
    body: BodyKind,
) -> (route: Route)
    ensures
        route@ == (RouteView { name, pieces: pieces@, method, guard, body }),
{
    Route { name, pieces, method, guard, body }
}

/// The route table.
pub fn get_routes() -> (table: Vec<Route>)
    ensures
        table@.map_values(|route: Route| route@) == routes(),
{
    let users = Piece::Literal("users");
    let channels = Piece::Literal("channels");
    let guilds = Piece::Literal("guilds");
    let members = Piece::Literal("members");
    let this_user = Piece::Literal("@self");
    let table = vec![
        route(
            RouteName::CreateMessage,
            vec![channels, Piece::Id, Piece::Literal("messages")],
            Method::Post,
            Guard::TokenAndLimit,
            BodyKind::Message,
        ),
        route(RouteName::CreateUser, vec![users], Method::Post, Guard::Open, BodyKind::User),
        route(
            RouteName::Login,
            vec![users, Piece::Literal("auth")],
            Method::Post,
            Guard::Open,
            BodyKind::Login,
        ),
        route(
            RouteName::QuerySelf,
            vec![users, this_user],
            Method::Get,
            Guard::Token,
            BodyKind::Nothing,
        ),
        route(
            RouteName::CreateChannel,
            vec![guilds, Piece::Id, channels],
            Method::Post,
            Guard::Token,
            BodyKind::Channel,
        ),
        route(
            RouteName::FetchChannel,
            vec![channels, Piece::Id],
            Method::Get,
            Guard::Token,
            BodyKind::Nothing,
        ),
        route(RouteName::CreateGuild, vec![guilds], Method::Post, Guard::Token, BodyKind::Guild),
        route(
            RouteName::FetchGuild,
            vec![guilds, Piece::Id],
            Method::Get,
            Guard::Token,
            BodyKind::Nothing,
        ),
        route(
            RouteName::FetchMember,
            vec![guilds, Piece::Id, members, Piece::Id],
            Method::Get,
            Guard::Token,
            BodyKind::Nothing,
        ),
        route(
            RouteName::FetchMemberSelf,
            vec![guilds, Piece::Id, members, this_user],
            Method::Get,
            Guard::Token,
            BodyKind::Nothing,
        ),
        route(
            RouteName::FetchSelfGuilds,
            vec![users, this_user, guilds],
            Method::Get,
            Guard::Token,
            BodyKind::Nothing,
        ),
    ];
    assert(table@.map_values(|route: Route| route@) =~~= routes());
    table
}

/// Where a request is bound for: the endpoint, and what its route asks of the request.
#[derive(Clone, Copy, Debug, PartialEq, Eq, Structural)]
pub struct Target {
    pub endpoint: Endpoint,
    pub method: Method,
    pub guard: Guard,
    pub body: BodyKind,
}

/// A path segment is what a route has in its place.
pub open spec fn fits(piece: Piece, segment: Seq<char>) -> bool {
    match piece {
        Piece::Literal(text) => text@ == segment,
        Piece::Id => number(segment) is Some,
    }
}

pub open spec fn matches_path(pieces: Seq<Piece>, path: Seq<Seq<char>>) -> bool {
    &&& pieces.len() == path.len()
    &&& forall|i: int| 0 <= i < pieces.len() ==> fits(#[trigger] pieces[i], path[i])
}

/// The ids that stand in `path`, from left to right.
pub open spec fn ids_in(pieces: Seq<Piece>, path: Seq<Seq<char>>) -> Seq<Snowflake>
    decreases pieces.len(),
{
    if pieces.len() == 0 {
        seq![]
    } else {
        let before = ids_in(pieces.drop_last(), path);
        match pieces.last() {
            Piece::Literal(_) => before,
            Piece::Id => before.push(Snowflake { value: number(path[pieces.len() - 1])->0 }),
        }
    }
}

/// The endpoint that a route leads to with these ids in its path.
pub open spec fn endpoint_with(name: RouteName, ids: Seq<Snowflake>) -> Endpoint {
    match name {
        RouteName::CreateMessage => Endpoint::CreateMessage { channel_id: ids[0] },
        RouteName::CreateUser => Endpoint::CreateUser,
        RouteName::Login => Endpoint::Login,
        RouteName::QuerySelf => Endpoint::QuerySelf,
        RouteName::CreateChannel => Endpoint::CreateChannel { guild_id: ids[0] },
        RouteName::FetchChannel => Endpoint::FetchChannel { channel_id: ids[0] },
        RouteName::CreateGuild => Endpoint::CreateGuild,
        RouteName::FetchGuild => Endpoint::FetchGuild { guild_id: ids[0] },
        RouteName::FetchMember => Endpoint::FetchMember { guild_id: ids[0], member_id: ids[1] },
        RouteName::FetchMemberSelf => Endpoint::FetchMemberSelf { guild_id: ids[0] },
        RouteName::FetchSelfGuilds => Endpoint::FetchSelfGuilds,
    }
}

/// How many ids stand in the path of a route.
pub open spec fn arity(name: RouteName) -> nat {
    match name {
        RouteName::CreateMessage => 1,
        RouteName::CreateUser => 0,
        RouteName::Login => 0,
        RouteName::QuerySelf => 0,
        RouteName::CreateChannel => 1,
        RouteName::FetchChannel => 1,
        RouteName::CreateGuild => 0,
        RouteName::FetchGuild => 1,
        RouteName::FetchMember => 2,
        RouteName::FetchMemberSelf => 1,
        RouteName::FetchSelfGuilds => 0,
    }
}

pub open spec fn target_of(route: RouteView, path: Seq<Seq<char>>) -> Target {
    Target {
        endpoint: endpoint_with(route.name, ids_in(route.pieces, path)),
        method: route.method,
        guard: route.guard,
        body: route.body,
    }
}

/// `route` is the first of the routes that `path` matches.
pub open spec fn is_first_match(route: int, path: Seq<Seq<char>>) -> bool {
    &&& 0 <= route < routes().len()
    &&& matches_path(routes()[route].pieces, path)
    &&& forall|i: int| 0 <= i < route ==> !matches_path(#[trigger] routes()[i].pieces, path)
}

/// `path` leads to `target`, or nowhere if that is `None`.
pub open spec fn leads_to(path: Seq<char>, target: Option<Target>) -> bool {
    match target {
        Some(target) => exists|i: int|
            #[trigger] is_first_match(i, segments(path)) && target == target_of(
                routes()[i],
                segments(path),
            ),
        None => forall|i: int|
            0 <= i < routes().len() ==> !matches_path(
                #[trigger] routes()[i].pieces,
                segments(path),
            ),
    }
}

proof fn lemma_ids_in_len(i: int, path: Seq<Seq<char>>)
    requires
        0 <= i < routes().len(),
    ensures
        ids_in(routes()[i].pieces, path).len() == arity(routes()[i].name),
{
    reveal_with_fuel(ids_in, 5);
}

fn same_text(text: &str, chars: &Vec<char>) -> (same: bool)
    ensures
        same == (text@ == chars@),
{
    let other = chars_of(text);
    if other.len() != chars.len() {
        return false;
    }
    let mut i: usize = 0;
    while i < chars.len()
        invariant
            i <= chars.len(),
            other.len() == chars.len(),
            other@ == text@,
            forall|j: int| 0 <= j < i ==> other[j] == chars[j],
        decreases chars.len() - i,
    {
        if other[i] != chars[i] {
            return false;
        }
        i = i + 1;
    }
    assert(other@ == chars@);
    true
}

/// The ids in a path, if the path matches.
fn match_pieces(pieces: &Vec<Piece>, path: &Vec<Vec<char>>) -> (ids: Option<Vec<Snowflake>>)
    ensures
        ids is Some <==> matches_path(pieces@, path@.map_values(|part: Vec<char>| part@)),
        ids matches Some(found) ==> found@ == ids_in(
            pieces@,
            path@.map_values(|part: Vec<char>| part@),
        ),
{
    let ghost parts = path@.map_values(|part: Vec<char>| part@);
    if pieces.len() != path.len() {
        return None;
    }
    let mut ids: Vec<Snowflake> = Vec::new();
    let mut i: usize = 0;
    while i < pieces.len()
        invariant
            i <= pieces.len(),
            pieces.len() == path.len(),
            parts == path@.map_values(|part: Vec<char>| part@),
            forall|j: int| 0 <= j < i ==> fits(#[trigger] pieces[j], parts[j]),
            ids@ == ids_in(pieces@.take(i as int), parts),
        decreases pieces.len() - i,
    {
        assert(parts[i as int] == path[i as int]@);
        assert(pieces@.take(i + 1).drop_last() == pieces@.take(i as int));
        match pieces[i] {
            Piece::Literal(text) => {
                if !same_text(text, &path[i]) {
                    assert(!fits(pieces@[i as int], parts[i as int]));
                    return None;
                }
            },
            Piece::Id => {
                match parse_number(&path[i]) {
                    Some(value) => ids.push(Snowflake { value }),
                    None => {
                        assert(!fits(pieces@[i as int], parts[i as int]));
                        return None;
                    },
                }
            },
        }
        i = i + 1;
    }
    assert(pieces@.take(i as int) == pieces@);
    Some(ids)
}

fn endpoint_of(name: RouteName, ids: &Vec<Snowflake>) -> (endpoint: Endpoint)
    requires
        ids.len() == arity(name),
    ensures
        endpoint == endpoint_with(name, ids@),
{
    match name {
        RouteName::CreateMessage => Endpoint::CreateMessage { channel_id: ids[0] },
        RouteName::CreateUser => Endpoint::CreateUser,
        RouteName::Login => Endpoint::Login,
        RouteName::QuerySelf => Endpoint::QuerySelf,
        RouteName::CreateChannel => Endpoint::CreateChannel { guild_id: ids[0] },
        RouteName::FetchChannel => Endpoint::FetchChannel { channel_id: ids[0] },
        RouteName::CreateGuild => Endpoint::CreateGuild,
        RouteName::FetchGuild => Endpoint::FetchGuild { guild_id: ids[0] },
        RouteName::FetchMember => Endpoint::FetchMember { guild_id: ids[0], member_id: ids[1] },
        RouteName::FetchMemberSelf => Endpoint::FetchMemberSelf { guild_id: ids[0] },
        RouteName::FetchSelfGuilds => Endpoint::FetchSelfGuilds,
    }
}

/// Finds what a request path leads to: the first route that matches it.
pub fn find_route(path: &str) -> (target: Option<Target>)
    ensures
        leads_to(path@, target),
{
    let parts = path_segments(path);
    let table = get_routes();
    let ghost views = table@.map_values(|route: Route| route@);
    let mut i: usize = 0;
    while i < table.len()
        invariant
            i <= table.len(),
            views == table@.map_values(|route: Route| route@),
            views == routes(),
            parts@.map_values(|part: Vec<char>| part@) == segments(path@),
            forall|j: int|
                0 <= j < i ==> !matches_path(#[trigger] routes()[j].pieces, segments(path@)),
        decreases table.len() - i,
    {
        assert(views[i as int] == table[i as int]@);
        match match_pieces(&table[i].pieces, &parts) {
            Some(ids) => {
                proof {
                    lemma_ids_in_len(i as int, segments(path@));
                    assert(is_first_match(i as int, segments(path@)));
                }
                return Some(
                    Target {
                        endpoint: endpoint_of(table[i].name, &ids),
                        method: table[i].method,
                        guard: table[i].guard,
                        body: table[i].body,
                    },
                );
            },
            None => {},
        }
        i = i + 1;
    }
    assert(views.len() == table.len());
    None
}

/// No path matches two routes.
pub proof fn law_routes_are_disjoint(i: int, j: int, path: Seq<char>)
    requires
        0 <= i < routes().len(),
        0 <= j < routes().len(),
        matches_path(routes()[i].pieces, segments(path)),
        matches_path(routes()[j].pieces, segments(path)),
    ensures
        i == j,
{
    reveal_strlit("users");
    reveal_strlit("auth");
    reveal_strlit("@self");
    reveal_strlit("channels");
    reveal_strlit("messages");
    reveal_strlit("guilds");
    reveal_strlit("members");
    let parts = segments(path);
    let a = routes()[i].pieces;
    let b = routes()[j].pieces;
    assert(fits(a[0], parts[0]) && fits(b[0], parts[0]));
    if parts.len() > 1 {
        assert(fits(a[1], parts[1]) && fits(b[1], parts[1]));
    }
    if parts.len() > 2 {
        assert(fits(a[2], parts[2]) && fits(b[2], parts[2]));
    }
    if parts.len() > 3 {
        assert(fits(a[3], parts[3]) && fits(b[3], parts[3]));
    }
    assert(!is_digit("@self"@[0]));
    assert(number("@self"@) is None);
}

/// A path leads to one target only, or nowhere.
pub proof fn law_path_leads_to_one_target(path: Seq<char>, a: Option<Target>, b: Option<Target>)
    requires
        leads_to(path, a),
        leads_to(path, b),
    ensures
        a == b,
{
    let parts = segments(path);
    if let Some(found) = a {
        let i = choose|i: int|
            #[trigger] is_first_match(i, parts) && found == target_of(routes()[i], parts);
        assert(matches_path(routes()[i].pieces, parts));
        if let Some(other) = b {
            let j = choose|j: int|
                #[trigger] is_first_match(j, parts) && other == target_of(routes()[j], parts);
            law_routes_are_disjoint(i, j, path);
        }
    } else if let Some(other) = b {
        let j = choose|j: int|
            #[trigger] is_first_match(j, parts) && other == target_of(routes()[j], parts);
        assert(matches_path(routes()[j].pieces, parts));
    }
}

/// The text of an id in a path.
pub open spec fn id_text(id: Snowflake) -> Seq<char> {
    decimal(id.value as nat)
}

proof fn lemma_leads_to(i: int, parts: Seq<Seq<char>>)
    requires
        0 <= i < routes().len(),
        are_parts(parts),
        matches_path(routes()[i].pieces, parts),
    ensures
        leads_to(path_of(parts), Some(target_of(routes()[i], parts))),
{
    law_path_is_taken_apart(parts);
    assert forall|j: int| 0 <= j < i implies !matches_path(
        #[trigger] routes()[j].pieces,
        parts,
    ) by {
        if matches_path(routes()[j].pieces, parts) {
            law_routes_are_disjoint(i, j, path_of(parts));
        }
    }
    assert(is_first_match(i, segments(path_of(parts))));
}

/// `/channels/{channel_id}/messages` sends a message, whatever the id.
pub proof fn law_path_of_create_message(channel_id: Snowflake)
    ensures
        leads_to(
            path_of(seq!["channels"@, id_text(channel_id), "messages"@]),
            Some(
                Target {
                    endpoint: Endpoint::CreateMessage { channel_id },
                    method: Method::Post,
                    guard: Guard::TokenAndLimit,
                    body: BodyKind::Message,
                },
            ),
        ),
{
    let parts = seq!["channels"@, id_text(channel_id), "messages"@];
    assert(are_parts(parts) && matches_path(routes()[0].pieces, parts)) by {
        law_decimal_is_read_back(channel_id.value);
        lemma_decimal_has_no_slash(channel_id.value);
        reveal_strlit("channels");
        reveal_strlit("messages");
    }
    assert(ids_in(routes()[0].pieces, parts) == seq![channel_id]) by {
        law_decimal_is_read_back(channel_id.value);
        reveal_with_fuel(ids_in, 4);
    }
    lemma_leads_to(0, parts);
}

/// `/users` registers.
pub proof fn law_path_of_create_user()
    ensures
        leads_to(
            path_of(seq!["users"@]),
            Some(
                Target {
                    endpoint: Endpoint::CreateUser,
                    method: Method::Post,
                    guard: Guard::Open,
                    body: BodyKind::User,
                },
            ),
        ),
{
    let parts = seq!["users"@];
    assert(are_parts(parts) && matches_path(routes()[1].pieces, parts)) by {
        reveal_strlit("users");
    }
    assert(ids_in(routes()[1].pieces, parts) == Seq::<Snowflake>::empty()) by {
        reveal_with_fuel(ids_in, 2);
    }
    lemma_leads_to(1, parts);
}

/// `/users/auth` logs in.
pub proof fn law_path_of_login()
    ensures
        leads_to(
            path_of(seq!["users"@, "auth"@]),
            Some(
                Target {
                    endpoint: Endpoint::Login,
                    method: Method::Post,
                    guard: Guard::Open,
                    body: BodyKind::Login,
                },
            ),
        ),
{
    let parts = seq!["users"@, "auth"@];
    assert(are_parts(parts) && matches_path(routes()[2].pieces, parts)) by {
        reveal_strlit("users");
        reveal_strlit("auth");
    }
    assert(ids_in(routes()[2].pieces, parts) == Seq::<Snowflake>::empty()) by {
        reveal_with_fuel(ids_in, 3);
    }
    lemma_leads_to(2, parts);
}

/// `/users/@self` shows the user.
pub proof fn law_path_of_query_self()
    ensures
        leads_to(
            path_of(seq!["users"@, "@self"@]),
            Some(
                Target {
                    endpoint: Endpoint::QuerySelf,
                    method: Method::Get,
                    guard: Guard::Token,
                    body: BodyKind::Nothing,
                },
            ),
        ),
{
    let parts = seq!["users"@, "@self"@];
    assert(are_parts(parts) && matches_path(routes()[3].pieces, parts)) by {
        reveal_strlit("users");
        reveal_strlit("@self");
    }
    assert(ids_in(routes()[3].pieces, parts) == Seq::<Snowflake>::empty()) by {
        reveal_with_fuel(ids_in, 3);
    }
    lemma_leads_to(3, parts);
}

/// `/guilds/{guild_id}/channels` creates a channel, whatever the id.
pub proof fn law_path_of_create_channel(guild_id: Snowflake)
    ensures
        leads_to(
            path_of(seq!["guilds"@, id_text(guild_id), "channels"@]),
            Some(
                Target {
                    endpoint: Endpoint::CreateChannel { guild_id },
                    method: Method::Post,
                    guard: Guard::Token,
                    body: BodyKind::Channel,
                },
            ),
        ),
{
    let parts = seq!["guilds"@, id_text(guild_id), "channels"@];
    assert(are_parts(parts) && matches_path(routes()[4].pieces, parts)) by {
        law_decimal_is_read_back(guild_id.value);
        lemma_decimal_has_no_slash(guild_id.value);
        reveal_strlit("guilds");
        reveal_strlit("channels");
    }
    assert(ids_in(routes()[4].pieces, parts) == seq![guild_id]) by {
        law_decimal_is_read_back(guild_id.value);
        reveal_with_fuel(ids_in, 4);
    }
    lemma_leads_to(4, parts);
}

/// `/channels/{channel_id}` shows a channel, whatever the id.
pub proof fn law_path_of_fetch_channel(channel_id: Snowflake)
    ensures
        leads_to(
            path_of(seq!["channels"@, id_text(channel_id)]),
            Some(
                Target {
                    endpoint: Endpoint::FetchChannel { channel_id },
                    method: Method::Get,
                    guard: Guard::Token,
                    body: BodyKind::Nothing,
                },
            ),
        ),
{
    let parts = seq!["channels"@, id_text(channel_id)];
    assert(are_parts(parts) && matches_path(routes()[5].pieces, parts)) by {
        law_decimal_is_read_back(channel_id.value);
        lemma_decimal_has_no_slash(channel_id.value);
        reveal_strlit("channels");
    }
    assert(ids_in(routes()[5].pieces, parts) == seq![channel_id]) by {
        law_decimal_is_read_back(channel_id.value);
        reveal_with_fuel(ids_in, 3);
    }
    lemma_leads_to(5, parts);
}

/// `/guilds` creates a guild.
pub proof fn law_path_of_create_guild()
    ensures
        leads_to(
            path_of(seq!["guilds"@]),
            Some(
                Target {
                    endpoint: Endpoint::CreateGuild,
                    method: Method::Post,
                    guard: Guard::Token,
                    body: BodyKind::Guild,
                },
            ),
        ),
{
    let parts = seq!["guilds"@];
    assert(are_parts(parts) && matches_path(routes()[6].pieces, parts)) by {
        reveal_strlit("guilds");
    }
    assert(ids_in(routes()[6].pieces, parts) == Seq::<Snowflake>::empty()) by {
        reveal_with_fuel(ids_in, 2);
    }
    lemma_leads_to(6, parts);
}

/// `/guilds/{guild_id}` shows a guild, whatever the id.
pub proof fn law_path_of_fetch_guild(guild_id: Snowflake)
    ensures
        leads_to(
            path_of(seq!["guilds"@, id_text(guild_id)]),
            Some(
                Target {
                    endpoint: Endpoint::FetchGuild { guild_id },
                    method: Method::Get,
                    guard: Guard::Token,
                    body: BodyKind::Nothing,
                },
            ),
        ),
{
    let parts = seq!["guilds"@, id_text(guild_id)];
    assert(are_parts(parts) && matches_path(routes()[7].pieces, parts)) by {
        law_decimal_is_read_back(guild_id.value);
        lemma_decimal_has_no_slash(guild_id.value);
        reveal_strlit("guilds");
    }
    assert(ids_in(routes()[7].pieces, parts) == seq![guild_id]) by {
        law_decimal_is_read_back(guild_id.value);
        reveal_with_fuel(ids_in, 3);
    }
    lemma_leads_to(7, parts);
}

/// `/guilds/{guild_id}/members/{member_id}` shows a member, whatever the ids.
pub proof fn law_path_of_fetch_member(guild_id: Snowflake, member_id: Snowflake)
    ensures
        leads_to(
            path_of(seq!["guilds"@, id_text(guild_id), "members"@, id_text(member_id)]),
            Some(
                Target {
                    endpoint: Endpoint::FetchMember { guild_id, member_id },
                    method: Method::Get,
                    guard: Guard::Token,
                    body: BodyKind::Nothing,
                },
            ),
        ),
{
    let parts = seq!["guilds"@, id_text(guild_id), "members"@, id_text(member_id)];
    assert(are_parts(parts) && matches_path(routes()[8].pieces, parts)) by {
        law_decimal_is_read_back(guild_id.value);
        lemma_decimal_has_no_slash(guild_id.value);
        law_decimal_is_read_back(member_id.value);
        lemma_decimal_has_no_slash(member_id.value);
        reveal_strlit("guilds");
        reveal_strlit("members");
    }
    assert(ids_in(routes()[8].pieces, parts) == seq![guild_id, member_id]) by {
        law_decimal_is_read_back(guild_id.value);
        law_decimal_is_read_back(member_id.value);
        reveal_with_fuel(ids_in, 5);
    }
    lemma_leads_to(8, parts);
}

/// `/guilds/{guild_id}/members/@self` shows the user as a member, whatever the id.
pub proof fn law_path_of_fetch_member_self(guild_id: Snowflake)
    ensures
        leads_to(
            path_of(seq!["guilds"@, id_text(guild_id), "members"@, "@self"@]),
            Some(
                Target {
                    endpoint: Endpoint::FetchMemberSelf { guild_id },
                    method: Method::Get,
                    guard: Guard::Token,
                    body: BodyKind::Nothing,
                },
            ),
        ),
{
    let parts = seq!["guilds"@, id_text(guild_id), "members"@, "@self"@];
    assert(are_parts(parts) && matches_path(routes()[9].pieces, parts)) by {
        law_decimal_is_read_back(guild_id.value);
        lemma_decimal_has_no_slash(guild_id.value);
        reveal_strlit("guilds");
        reveal_strlit("members");
        reveal_strlit("@self");
    }
    assert(ids_in(routes()[9].pieces, parts) == seq![guild_id]) by {
        law_decimal_is_read_back(guild_id.value);
        reveal_with_fuel(ids_in, 5);
    }
    lemma_leads_to(9, parts);
}

/// `/users/@self/guilds` shows the user's guilds.
pub proof fn law_path_of_fetch_self_guilds()
    ensures
        leads_to(
            path_of(seq!["users"@, "@self"@, "guilds"@]),
            Some(
                Target {
                    endpoint: Endpoint::FetchSelfGuilds,
                    method: Method::Get,
                    guard: Guard::Token,
                    body: BodyKind::Nothing,
                },
            ),
        ),
{
    let parts = seq!["users"@, "@self"@, "guilds"@];
    assert(are_parts(parts) && matches_path(routes()[10].pieces, parts)) by {
        reveal_strlit("users");
        reveal_strlit("@self");
        reveal_strlit("guilds");
    }
    assert(ids_in(routes()[10].pieces, parts) == Seq::<Snowflake>::empty()) by {
        reveal_with_fuel(ids_in, 4);
    }
    lemma_leads_to(10, parts);
}

/// What the segments of a path look like that route `i` matches.
spec fn has_shape(i: int, parts: Seq<Seq<char>>) -> bool {
    if i == 0 {
        &&& parts =~= seq!["channels"@, parts[1], "messages"@]
        &&& number(parts[1]) is Some
    } else if i == 1 {
        parts =~= seq!["users"@]
    } else if i == 2 {
        parts =~= seq!["users"@, "auth"@]
    } else if i == 3 {
        parts =~= seq!["users"@, "@self"@]
    } else if i == 4 {
        &&& parts =~= seq!["guilds"@, parts[1], "channels"@]
        &&& number(parts[1]) is Some
    } else if i == 5 {
        &&& parts =~= seq!["channels"@, parts[1]]
        &&& number(parts[1]) is Some
    } else if i == 6 {
        parts =~= seq!["guilds"@]
    } else if i == 7 {
        &&& parts =~= seq!["guilds"@, parts[1]]
        &&& number(parts[1]) is Some
    } else if i == 8 {
        &&& parts =~= seq!["guilds"@, parts[1], "members"@, parts[3]]
        &&& number(parts[1]) is Some
        &&& number(parts[3]) is Some
    } else if i == 9 {
        &&& parts =~= seq!["guilds"@, parts[1], "members"@, "@self"@]
        &&& number(parts[1]) is Some
    } else {
        parts =~= seq!["users"@, "@self"@, "guilds"@]
    }
}

/// The ids that stand where route `i` has them.
spec fn ids_of(i: int, parts: Seq<Seq<char>>) -> Seq<Snowflake> {
    let id = Snowflake { value: number(parts[1])->0 };
    let member_id = Snowflake { value: number(parts[3])->0 };
    if i == 8 {
        seq![id, member_id]
    } else if i == 0 || i == 4 || i == 5 || i == 7 || i == 9 {
        seq![id]
    } else {
        seq![]
    }
}

/// A short path matches if its segments do one by one.
proof fn lemma_fits_one_by_one(pieces: Seq<Piece>, parts: Seq<Seq<char>>)
    requires
        pieces.len() <= 4,
    ensures
        matches_path(pieces, parts) <==> {
            &&& pieces.len() == parts.len()
            &&& pieces.len() > 0 ==> fits(pieces[0], parts[0])
            &&& pieces.len() > 1 ==> fits(pieces[1], parts[1])
            &&& pieces.len() > 2 ==> fits(pieces[2], parts[2])
            &&& pieces.len() > 3 ==> fits(pieces[3], parts[3])
        },
{
}

proof fn lemma_shape(i: int, parts: Seq<Seq<char>>)
    requires
        0 <= i < routes().len(),
    ensures
        matches_path(routes()[i].pieces, parts) <==> has_shape(i, parts),
{
    lemma_fits_one_by_one(routes()[i].pieces, parts);
    if matches_path(routes()[i].pieces, parts) {
        assert(has_shape(i, parts));
    }
}

/// The words that stand in paths differ, and none is a number.
proof fn lemma_words_differ()
    ensures
        "users"@ != "guilds"@,
        "users"@ != "channels"@,
        "guilds"@ != "channels"@,
        "auth"@ != "@self"@,
        "channels"@ != "messages"@,
        number("@self"@) is None,
{
    reveal_strlit("users");
    reveal_strlit("guilds");
    reveal_strlit("channels");
    reveal_strlit("messages");
    reveal_strlit("auth");
    reveal_strlit("@self");
    assert("users"@[0] != "guilds"@[0]);
    assert("users"@[0] != "channels"@[0]);
    assert("guilds"@[0] != "channels"@[0]);
    assert("auth"@[0] != "@self"@[0]);
    assert("channels"@[0] != "messages"@[0]);
    assert(!is_digit("@self"@[0]));
}

/// What every path leads to. `parts` are its segments; where an id is to stand, any text that is
/// read as a number is taken, and the id is that number. All other paths lead nowhere.
pub proof fn law_what_paths_lead_to(path: Seq<char>, target: Option<Target>)
    requires
        leads_to(path, target),
    ensures
        ({
            let parts = segments(path);
            let id = Snowflake { value: number(parts[1])->0 };
            let member_id = Snowflake { value: number(parts[3])->0 };
            let has_id = parts.len() > 1 && number(parts[1]) is Some;
            target == if has_id && parts == seq!["channels"@, parts[1], "messages"@] {
                Some(
                    Target {
                        endpoint: Endpoint::CreateMessage { channel_id: id },
                        method: Method::Post,
                        guard: Guard::TokenAndLimit,
                        body: BodyKind::Message,
                    },
                )
            } else if parts == seq!["users"@] {
                Some(
                    Target {
                        endpoint: Endpoint::CreateUser,
                        method: Method::Post,
                        guard: Guard::Open,
                        body: BodyKind::User,
                    },
                )
            } else if parts == seq!["users"@, "auth"@] {
                Some(
                    Target {
                        endpoint: Endpoint::Login,
                        method: Method::Post,
                        guard: Guard::Open,
                        body: BodyKind::Login,
                    },
                )
            } else if parts == seq!["users"@, "@self"@] {
                Some(
                    Target {
                        endpoint: Endpoint::QuerySelf,
                        method: Method::Get,
                        guard: Guard::Token,
                        body: BodyKind::Nothing,
                    },
                )
            } else if has_id && parts == seq!["guilds"@, parts[1], "channels"@] {
                Some(
                    Target {
                        endpoint: Endpoint::CreateChannel { guild_id: id },
                        method: Method::Post,
                        guard: Guard::Token,
                        body: BodyKind::Channel,
                    },
                )
            } else if has_id && parts == seq!["channels"@, parts[1]] {
                Some(
                    Target {
                        endpoint: Endpoint::FetchChannel { channel_id: id },
                        method: Method::Get,
                        guard: Guard::Token,
                        body: BodyKind::Nothing,
                    },
                )
            } else if parts == seq!["guilds"@] {
                Some(
                    Target {
                        endpoint: Endpoint::CreateGuild,
                        method: Method::Post,
                        guard: Guard::Token,
                        body: BodyKind::Guild,
                    },
                )
            } else if has_id && parts == seq!["guilds"@, parts[1]] {
                Some(
                    Target {
                        endpoint: Endpoint::FetchGuild { guild_id: id },
                        method: Method::Get,
                        guard: Guard::Token,
                        body: BodyKind::Nothing,
                    },
                )
            } else if has_id && parts == seq!["guilds"@, parts[1], "members"@, parts[3]] && number(
                parts[3],
            ) is Some {
                Some(
                    Target {
                        endpoint: Endpoint::FetchMember { guild_id: id, member_id },
                        method: Method::Get,
                        guard: Guard::Token,
                        body: BodyKind::Nothing,
                    },
                )
            } else if has_id && parts == seq!["guilds"@, parts[1], "members"@, "@self"@] {
                Some(
                    Target {
                        endpoint: Endpoint::FetchMemberSelf { guild_id: id },
                        method: Method::Get,
                        guard: Guard::Token,
                        body: BodyKind::Nothing,
                    },
                )
            } else if parts == seq!["users"@, "@self"@, "guilds"@] {
                Some(
                    Target {
                        endpoint: Endpoint::FetchSelfGuilds,
                        method: Method::Get,
                        guard: Guard::Token,
                        body: BodyKind::Nothing,
                    },
                )
            } else {
                None
            }
        }),
{
    let parts = segments(path);
    if let Some(found) = target {
        let i = choose|i: int|
            #[trigger] is_first_match(i, parts) && found == target_of(routes()[i], parts);
        assert(is_first_match(i, parts));
        lemma_shape(i, parts);
        assert(ids_in(routes()[i].pieces, parts) == ids_of(i, parts)) by {
            reveal_with_fuel(ids_in, 5);
        }
        lemma_words_differ();
    } else {
        assert forall|i: int| 0 <= i < routes().len() implies !#[trigger] has_shape(i, parts) by {
            assert(!matches_path(routes()[i].pieces, parts));
            lemma_shape(i, parts);
        }
        assert(!has_shape(0, parts) && !has_shape(1, parts) && !has_shape(2, parts));
        assert(!has_shape(3, parts) && !has_shape(4, parts) && !has_shape(5, parts));
        assert(!has_shape(6, parts) && !has_shape(7, parts) && !has_shape(8, parts));
        assert(!has_shape(9, parts) && !has_shape(10, parts));
    }
}

/// A path is found to lead where it leads.
pub proof fn law_routes_are_found(path: &str, target: Option<Target>)
    requires
        call_ensures(find_route, (path,), target),
    ensures
        leads_to(path@, target),
{
}

/// The table has a row for each route, with the segments, the method, the guard and the body of
/// that route.
pub proof fn law_route_table(table: Vec<Route>)
    requires
        call_ensures(get_routes, (), table),
    ensures
        table.len() == 11,
        table[0].name == RouteName::CreateMessage,
        table[0].pieces@ == seq![Piece::Literal("channels"), Piece::Id, Piece::Literal("messages")],
        table[0].method == Method::Post,
        table[0].guard == Guard::TokenAndLimit,
        table[0].body == BodyKind::Message,
        table[1].name == RouteName::CreateUser,
        table[1].pieces@ == seq![Piece::Literal("users")],
        table[1].method == Method::Post,
        table[1].guard == Guard::Open,
        table[1].body == BodyKind::User,
        table[2].name == RouteName::Login,
        table[2].pieces@ == seq![Piece::Literal("users"), Piece::Literal("auth")],
        table[2].method == Method::Post,
        table[2].guard == Guard::Open,
        table[2].body == BodyKind::Login,
        table[3].name == RouteName::QuerySelf,
        table[3].pieces@ == seq![Piece::Literal("users"), Piece::Literal("@self")],
        table[3].method == Method::Get,
        table[3].guard == Guard::Token,
        table[3].body == BodyKind::Nothing,
        table[4].name == RouteName::CreateChannel,
        table[4].pieces@ == seq![Piece::Literal("guilds"), Piece::Id, Piece::Literal("channels")],
        table[4].method == Method::Post,
        table[4].guard == Guard::Token,
        table[4].body == BodyKind::Channel,
        table[5].name == RouteName::FetchChannel,
        table[5].pieces@ == seq![Piece::Literal("channels"), Piece::Id],
        table[5].method == Method::Get,
        table[5].guard == Guard::Token,
        table[5].body == BodyKind::Nothing,
        table[6].name == RouteName::CreateGuild,
        table[6].pieces@ == seq![Piece::Literal("guilds")],
        table[6].method == Method::Post,
        table[6].guard == Guard::Token,
        table[6].body == BodyKind::Guild,
        table[7].name == RouteName::FetchGuild,
        table[7].pieces@ == seq![Piece::Literal("guilds"), Piece::Id],
        table[7].method == Method::Get,
        table[7].guard == Guard::Token,
        table[7].body == BodyKind::Nothing,
        table[8].name == RouteName::FetchMember,
        table[8].pieces@ == seq![
            Piece::Literal("guilds"),
            Piece::Id,
            Piece::Literal("members"),
            Piece::Id,
        ],
        table[8].method == Method::Get,
        table[8].guard == Guard::Token,
        table[8].body == BodyKind::Nothing,
        table[9].name == RouteName::FetchMemberSelf,
        table[9].pieces@ == seq![
            Piece::Literal("guilds"),
            Piece::Id,
            Piece::Literal("members"),
            Piece::Literal("@self"),
        ],
        table[9].method == Method::Get,
        table[9].guard == Guard::Token,
        table[9].body == BodyKind::Nothing,
        table[10].name == RouteName::FetchSelfGuilds,
        table[10].pieces@ == seq![
            Piece::Literal("users"),
            Piece::Literal("@self"),
            Piece::Literal("guilds"),
        ],
        table[10].method == Method::Get,
        table[10].guard == Guard::Token,
        table[10].body == BodyKind::Nothing,
{
    let views = table@.map_values(|route: Route| route@);
    assert(views.len() == routes().len());
    assert forall|i: int| 0 <= i < table.len() implies #[trigger] table[i]@ == routes()[i] by {
        assert(views[i] == table[i]@);
    }
    assert(table[0]@ == routes()[0]);
    assert(table[1]@ == routes()[1]);
    assert(table[2]@ == routes()[2]);
    assert(table[3]@ == routes()[3]);
    assert(table[4]@ == routes()[4]);
    assert(table[5]@ == routes()[5]);
    assert(table[6]@ == routes()[6]);
    assert(table[7]@ == routes()[7]);
    assert(table[8]@ == routes()[8]);
    assert(table[9]@ == routes()[9]);
    assert(table[10]@ == routes()[10]);
}

} // verus!
