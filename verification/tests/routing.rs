use chat_backend::cors::cors_policy;
use chat_backend::model::Snowflake;
use chat_backend::path::path_segments;
use chat_backend::routes::{
    find_route, get_routes, BodyKind, Endpoint, Guard, Method, Piece, Route, RouteName, Target,
    BODY_LIMIT,
};
use chat_backend::text::{chars_of, parse_number};

fn id(value: u64) -> Snowflake {
    Snowflake { value }
}

fn target(endpoint: Endpoint, method: Method, guard: Guard, body: BodyKind) -> Option<Target> {
    Some(Target { endpoint, method, guard, body })
}

fn parts(path: &str) -> Vec<String> {
    path_segments(path).iter().map(|part| part.iter().collect()).collect()
}

fn number(text: &str) -> Option<u64> {
    parse_number(&chars_of(text))
}

#[test]
fn every_endpoint_has_its_path() {
    let (get, post) = (Method::Get, Method::Post);
    let nothing = BodyKind::Nothing;
    assert_eq!(
        find_route("/channels/12/messages"),
        target(
            Endpoint::CreateMessage { channel_id: id(12) },
            post,
            Guard::TokenAndLimit,
            BodyKind::Message
        )
    );
    assert_eq!(
        find_route("/users"),
        target(Endpoint::CreateUser, post, Guard::Open, BodyKind::User)
    );
    assert_eq!(
        find_route("/users/auth"),
        target(Endpoint::Login, post, Guard::Open, BodyKind::Login)
    );
    assert_eq!(
        find_route("/users/@self"),
        target(Endpoint::QuerySelf, get, Guard::Token, nothing)
    );
    assert_eq!(
        find_route("/guilds/7/channels"),
        target(
            Endpoint::CreateChannel { guild_id: id(7) },
            post,
            Guard::Token,
            BodyKind::Channel
        )
    );
    assert_eq!(
        find_route("/channels/12"),
        target(Endpoint::FetchChannel { channel_id: id(12) }, get, Guard::Token, nothing)
    );
    assert_eq!(
        find_route("/guilds"),
        target(Endpoint::CreateGuild, post, Guard::Token, BodyKind::Guild)
    );
    assert_eq!(
        find_route("/guilds/7"),
        target(Endpoint::FetchGuild { guild_id: id(7) }, get, Guard::Token, nothing)
    );
    assert_eq!(
        find_route("/guilds/7/members/9"),
        target(
            Endpoint::FetchMember { guild_id: id(7), member_id: id(9) },
            get,
            Guard::Token,
            nothing
        )
    );
    assert_eq!(
        find_route("/guilds/7/members/@self"),
        target(Endpoint::FetchMemberSelf { guild_id: id(7) }, get, Guard::Token, nothing)
    );
    assert_eq!(
        find_route("/users/@self/guilds"),
        target(Endpoint::FetchSelfGuilds, get, Guard::Token, nothing)
    );
}

#[test]
fn other_paths_lead_nowhere() {
    for path in [
        "",
        "/",
        "//users",
        "/users//",
        "/user",
        "/Users",
        "/users/self",
        "/users/@self/guilds/1",
        "/channels",
        "/channels/",
        "/channels/x",
        "/channels/-1",
        "/channels/+",
        "/channels/1/messages/2",
        "/channels/18446744073709551616",
        "/guilds/@self",
        "/guilds/7/members",
        "/guilds/7/members/@me",
    ] {
        assert_eq!(find_route(path), None, "{}", path);
    }
}

#[test]
fn a_slash_at_the_end_is_passed_over() {
    assert_eq!(find_route("/users/"), find_route("/users"));
    assert_eq!(find_route("/channels/3/"), find_route("/channels/3"));
    assert_eq!(find_route("users"), find_route("/users"));
}

#[test]
fn paths_are_taken_apart() {
    assert_eq!(parts("/guilds/7/members"), ["guilds", "7", "members"]);
    assert_eq!(parts("/guilds/7/members/"), ["guilds", "7", "members"]);
    assert_eq!(parts("a//b"), ["a", "", "b"]);
    assert!(parts("/").is_empty());
    assert!(parts("").is_empty());
}

#[test]
fn ids_are_decimal_numbers() {
    assert_eq!(number("0"), Some(0));
    assert_eq!(number("007"), Some(7));
    assert_eq!(number("+7"), Some(7));
    assert_eq!(number("18446744073709551615"), Some(u64::MAX));
    assert_eq!(number("18446744073709551616"), None);
    assert_eq!(number("99999999999999999999999"), None);
    assert_eq!(number(""), None);
    assert_eq!(number("+"), None);
    assert_eq!(number("++1"), None);
    assert_eq!(number("-1"), None);
    assert_eq!(number("1a"), None);
    assert_eq!(number("\u{0661}"), None);
}

#[test]
fn numbers_are_read_back_from_their_digits() {
    for n in [0, 9, 10, 1_234_567_890, u64::MAX] {
        assert_eq!(number(&n.to_string()), Some(n));
    }
}

#[test]
fn the_table_lists_the_routes_in_order() {
    let table = get_routes();
    let names: Vec<RouteName> = table.iter().map(|route| route.name).collect();
    assert_eq!(
        names,
        [
            RouteName::CreateMessage,
            RouteName::CreateUser,
            RouteName::Login,
            RouteName::QuerySelf,
            RouteName::CreateChannel,
            RouteName::FetchChannel,
            RouteName::CreateGuild,
            RouteName::FetchGuild,
            RouteName::FetchMember,
            RouteName::FetchMemberSelf,
            RouteName::FetchSelfGuilds,
        ]
    );
    assert_eq!(
        table[9],
        Route {
            name: RouteName::FetchMemberSelf,
            pieces: vec![
                Piece::Literal("guilds"),
                Piece::Id,
                Piece::Literal("members"),
                Piece::Literal("@self"),
            ],
            method: Method::Get,
            guard: Guard::Token,
            body: BodyKind::Nothing,
        }
    );
}

#[test]
fn only_posted_requests_have_a_body() {
    for route in get_routes() {
        assert_eq!(route.method == Method::Post, route.body != BodyKind::Nothing);
        let open = matches!(route.name, RouteName::CreateUser | RouteName::Login);
        assert_eq!(route.guard == Guard::Open, open);
        let limited = route.name == RouteName::CreateMessage;
        assert_eq!(route.guard == Guard::TokenAndLimit, limited);
    }
    assert_eq!(BODY_LIMIT, 1024 * 16);
}

#[test]
fn other_origins_may_ask() {
    let policy = cors_policy();
    assert!(policy.any_origin);
    assert_eq!(
        policy.methods,
        [
            Method::Get,
            Method::Post,
            Method::Delete,
            Method::Options,
            Method::Put,
            Method::Patch,
        ]
    );
    assert_eq!(policy.headers, ["content-type", "origin", "authorization", "cache-control"]);
    assert_eq!(policy.max_age, 3600);
}
