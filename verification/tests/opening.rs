use chat_backend::admission::{HeaderValue, RequestHead};
use chat_backend::effects::Action;
use chat_backend::flow::Step;
use chat_backend::handlers::Payload;
use chat_backend::limiter::{message_create_limiter, IdLimiter};
use chat_backend::model::{CreateGuild, CreateMessage, CreateUser, Snowflake, Token};
use chat_backend::reply::Rejection;
use chat_backend::requests::{open_request, receive, start_handler, validated, Stage};
use chat_backend::routes::{BodyKind, Method};

fn token() -> Option<Token> {
    Some(Token { user_id: Snowflake { value: 3 } })
}

fn head(method: Method, authorization: Option<&str>, length: Option<&str>) -> RequestHead {
    RequestHead {
        method,
        authorization: authorization.map(|text| HeaderValue::Text(text.to_string())),
        content_length: length
            .map(|text| HeaderValue::Text(text.to_string()))
            .into_iter()
            .collect(),
    }
}

fn message() -> Payload {
    Payload::Message(CreateMessage { content: "hello".to_string() })
}

fn guild() -> Payload {
    Payload::Guild(CreateGuild { name: "g".to_string() })
}

/// The first action of the handler, or why none was started.
fn open(
    path: &str,
    head: RequestHead,
    found: Option<Token>,
    payload: Payload,
    limiter: &mut IdLimiter,
) -> Result<Action, Rejection> {
    open_request(path, head, found, payload, limiter).map(|step| match step {
        Step::Perform { action, .. } => action,
        _ => panic!("A handler has something to do"),
    })
}

fn bad_token() -> Rejection {
    Rejection::Unauthorized { message: "Invalid or expired token".to_string() }
}

#[test]
fn a_request_that_passes_all_checks_starts_its_handler() {
    let mut limiter = message_create_limiter();
    assert_eq!(
        open(
            "/channels/12/messages",
            head(Method::Post, Some("t"), Some("7")),
            token(),
            message(),
            &mut limiter
        ),
        Ok(Action::FetchChannel { channel_id: Snowflake { value: 12 } })
    );
    assert_eq!(
        open(
            "/users/@self",
            head(Method::Get, Some("t"), None),
            token(),
            Payload::Nothing,
            &mut limiter
        ),
        Ok(Action::FetchUser { user_id: Snowflake { value: 3 } })
    );
    let payload = || CreateUser { username: "ada".to_string(), password: "p".to_string() };
    assert_eq!(
        open(
            "/users",
            head(Method::Post, None, Some("7")),
            None,
            Payload::User(payload()),
            &mut limiter
        ),
        Ok(Action::BuildUser { payload: payload() })
    );
}

#[test]
fn a_request_is_refused_for_the_first_check_that_it_fails() {
    let mut limiter = message_create_limiter();
    let wrong = |authorization| head(Method::Get, authorization, None);
    assert_eq!(
        open("/nowhere", wrong(None), None, Payload::Nothing, &mut limiter),
        Err(Rejection::NotFound)
    );
    assert_eq!(
        open("/guilds", wrong(None), None, Payload::Nothing, &mut limiter),
        Err(Rejection::MissingHeader { name: "authorization" })
    );
    assert_eq!(
        open("/guilds", wrong(Some("t")), None, Payload::Nothing, &mut limiter),
        Err(bad_token())
    );
    assert_eq!(
        open("/guilds", wrong(Some("t")), token(), Payload::Nothing, &mut limiter),
        Err(Rejection::MethodNotAllowed)
    );
    let post = |length| head(Method::Post, Some("t"), length);
    assert_eq!(
        open("/guilds", post(None), token(), Payload::Nothing, &mut limiter),
        Err(Rejection::LengthRequired)
    );
    assert_eq!(
        open("/guilds", post(Some("16385")), token(), Payload::Nothing, &mut limiter),
        Err(Rejection::PayloadTooLarge)
    );
    assert_eq!(
        open("/guilds", post(Some("7")), token(), message(), &mut limiter),
        Err(Rejection::InvalidBody)
    );
    assert!(open("/guilds", post(Some("7")), token(), guild(), &mut limiter).is_ok());
}

#[test]
fn a_user_over_the_limit_starts_no_handler() {
    let mut limiter = message_create_limiter();
    let mut refused = None;
    for _ in 0..1000 {
        let request = head(Method::Post, Some("t"), Some("7"));
        let opened = open("/channels/1/messages", request, token(), message(), &mut limiter);
        refused = opened.err().or(refused);
    }
    match refused {
        Some(Rejection::BadRequest { message }) => {
            assert!(message.starts_with("Rate limit exceeded, try again at: "))
        }
        other => panic!("{:?}", other),
    }
    let request = head(Method::Post, Some("t"), Some("7"));
    assert!(open("/guilds", request, token(), guild(), &mut limiter).is_ok());
}

#[test]
fn a_request_goes_from_stage_to_stage() {
    let mut limiter = message_create_limiter();
    let request = || head(Method::Post, Some("t"), Some("7"));
    let guarded = match receive("/guilds", request()) {
        Stage::Token(guarded) => guarded,
        _ => panic!("The route asks for a token"),
    };
    assert_eq!(guarded.check().token, "t");
    assert_eq!(guarded.check().key, "among us");
    assert_eq!(guarded.body(), BodyKind::Guild);
    let admitted = validated(guarded, token(), &mut limiter).ok().unwrap();
    assert_eq!(admitted.body(), BodyKind::Guild);
    match start_handler(admitted, guild()) {
        Ok(Step::Perform { action: Action::BuildGuild { owner_id, .. }, .. }) => {
            assert_eq!(owner_id, Snowflake { value: 3 })
        }
        _ => panic!("The handler builds a guild first"),
    }
    match receive("/guilds", request()) {
        Stage::Token(guarded) => {
            assert_eq!(validated(guarded, None, &mut limiter).err(), Some(bad_token()))
        }
        _ => panic!("The route asks for a token"),
    }
    match receive("/users", head(Method::Post, None, Some("7"))) {
        Stage::Body(admitted) => {
            assert_eq!(admitted.body(), BodyKind::User);
            assert_eq!(start_handler(admitted, guild()).err(), Some(Rejection::InvalidBody));
        }
        _ => panic!("The route is open"),
    }
}
