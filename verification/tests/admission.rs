use chat_backend::admission::{
    after_guard, check_request, content_length, enter, needs_limit, needs_token, pass_token,
    validate_token, Entry, HeaderValue, RequestHead, TokenCheck,
};
use chat_backend::limiter::{limit_verdict, message_create_limiter, validate_limit};
use chat_backend::model::{Snowflake, Token};
use chat_backend::reply::Rejection;
use chat_backend::routes::{find_route, Method, Target};
use std::time::{Duration, Instant};

fn token(user_id: u64) -> Token {
    Token { user_id: Snowflake { value: user_id } }
}

fn text(value: &str) -> HeaderValue {
    HeaderValue::Text(value.to_string())
}

fn at(path: &str) -> Target {
    find_route(path).unwrap()
}

fn head(method: Method, authorization: Option<&str>, content_length: &[&str]) -> RequestHead {
    RequestHead {
        method,
        authorization: authorization.map(text),
        content_length: content_length.iter().map(|value| text(value)).collect(),
    }
}

fn bad_token() -> Rejection {
    Rejection::Unauthorized { message: "Invalid or expired token".to_string() }
}

fn limit_exceeded(rejection: &Rejection) -> bool {
    match rejection {
        Rejection::BadRequest { message } => {
            message.starts_with("Rate limit exceeded, try again at: QuantaInstant(Nanos(")
        }
        _ => false,
    }
}

#[test]
fn the_token_is_taken_from_its_header() {
    assert_eq!(
        needs_token(&Some(text("abc"))),
        Ok(TokenCheck { token: "abc".to_string(), key: "among us" })
    );
    assert_eq!(needs_token(&None), Err(Rejection::MissingHeader { name: "authorization" }));
    assert_eq!(
        needs_token(&Some(HeaderValue::Opaque)),
        Err(Rejection::InvalidHeader { name: "authorization" })
    );
}

#[test]
fn only_valid_tokens_pass() {
    assert_eq!(validate_token(Some(token(3))), Ok(token(3)));
    assert_eq!(validate_token(None), Err(bad_token()));
}

#[test]
fn the_limiter_decides_on_the_token() {
    assert_eq!(limit_verdict(token(3), Ok(())), Ok(token(3)));
    assert_eq!(
        limit_verdict(token(3), Err("noon".to_string())),
        Err(Rejection::BadRequest {
            message: "Rate limit exceeded, try again at: noon".to_string()
        })
    );
}

#[test]
fn a_user_is_stopped_after_a_burst() {
    let mut limiter = message_create_limiter();
    assert_eq!(validate_limit(token(1), &mut limiter), Ok(token(1)));
    let mut refused = None;
    for _ in 0..1000 {
        if let Err(rejection) = validate_limit(token(1), &mut limiter) {
            refused = Some(rejection);
        }
    }
    assert!(limit_exceeded(&refused.unwrap()));
}

#[test]
fn users_do_not_share_the_limit() {
    let mut limiter = message_create_limiter();
    for _ in 0..1000 {
        let _ = validate_limit(token(1), &mut limiter);
    }
    assert_eq!(validate_limit(token(2), &mut limiter), Ok(token(2)));
    assert_eq!(needs_limit(Some(token(3)), &mut limiter), Ok(token(3)));
}

/// What five requests, a sixth, and one of another user come to, each on a channel of its own.
/// They are made again until they all fall into less than one interval.
fn seven_at_once() -> Vec<Result<Token, Rejection>> {
    loop {
        let mut limiter = message_create_limiter();
        let start = Instant::now();
        let mut outcomes = Vec::new();
        for channel in 0..7 {
            let target = at(&format!("/channels/{}/messages", channel));
            let user = if channel == 6 { token(2) } else { token(1) };
            let request = head(Method::Post, Some("t"), &["2"]);
            outcomes.push(pass_token(&target, &request, Some(user), &mut limiter));
        }
        if start.elapsed() < Duration::from_millis(200) {
            return outcomes;
        }
    }
}

#[test]
fn a_user_has_one_quota_over_all_channels() {
    let outcomes = seven_at_once();
    for outcome in &outcomes[..5] {
        assert_eq!(*outcome, Ok(token(1)));
    }
    assert!(limit_exceeded(outcomes[5].as_ref().unwrap_err()));
    assert_eq!(outcomes[6], Ok(token(2)));
}

#[test]
fn a_user_is_told_the_same_time_until_they_pass() {
    let mut limiter = message_create_limiter();
    let mut told: Vec<Rejection> = Vec::new();
    let start = Instant::now();
    while start.elapsed() < Duration::from_millis(500) {
        match validate_limit(token(1), &mut limiter) {
            Ok(_) => told.clear(),
            Err(rejection) => {
                assert!(limit_exceeded(&rejection));
                assert!(told.iter().all(|before| *before == rejection));
                if told.is_empty() {
                    told.push(rejection);
                }
            }
        }
    }
}

#[test]
fn users_are_told_different_times() {
    let mut limiter = message_create_limiter();
    let mut told = Vec::new();
    for user in 1..3 {
        let mut refused = None;
        while refused.is_none() {
            refused = validate_limit(token(user), &mut limiter).err();
        }
        told.push(refused.unwrap());
    }
    assert_ne!(told[0], told[1]);
}

#[test]
fn a_user_passes_once_in_an_interval() {
    let mut limiter = message_create_limiter();
    let start = Instant::now();
    let mut passed: u128 = 0;
    while start.elapsed() < Duration::from_millis(700) {
        if validate_limit(token(1), &mut limiter).is_ok() {
            passed += 1;
            assert!(200 * passed <= start.elapsed().as_millis() + 1 + 5 * 200);
        }
    }
    assert!(passed > 5);
}

#[test]
fn a_bad_token_does_not_count_against_the_limit() {
    let mut limiter = message_create_limiter();
    for _ in 0..1000 {
        assert_eq!(needs_limit(None, &mut limiter), Err(bad_token()));
    }
    assert_eq!(needs_limit(Some(token(1)), &mut limiter), Ok(token(1)));
}

#[test]
fn content_lengths_have_to_agree() {
    assert_eq!(content_length(&vec![]), None);
    assert_eq!(content_length(&vec![text("12")]), Some(12));
    assert_eq!(content_length(&vec![text("12"), text("012")]), Some(12));
    assert_eq!(content_length(&vec![text("12"), text("13")]), None);
    assert_eq!(content_length(&vec![text("12"), HeaderValue::Opaque]), None);
    assert_eq!(content_length(&vec![HeaderValue::Opaque]), None);
    assert_eq!(content_length(&vec![text("x")]), None);
}

#[test]
fn method_and_length_are_checked() {
    let target = at("/users");
    assert_eq!(check_request(&target, &head(Method::Post, None, &["16384"])), Ok(()));
    assert_eq!(
        check_request(&target, &head(Method::Post, None, &["16385"])),
        Err(Rejection::PayloadTooLarge)
    );
    assert_eq!(
        check_request(&target, &head(Method::Post, None, &[])),
        Err(Rejection::LengthRequired)
    );
    assert_eq!(
        check_request(&target, &head(Method::Put, None, &["16385"])),
        Err(Rejection::MethodNotAllowed)
    );
    assert_eq!(check_request(&at("/channels/1"), &head(Method::Get, None, &[])), Ok(()));
    assert_eq!(
        check_request(&at("/channels/1"), &head(Method::Post, None, &["1"])),
        Err(Rejection::MethodNotAllowed)
    );
}

#[test]
fn open_routes_need_no_token() {
    assert_eq!(
        enter(&at("/users/auth"), &head(Method::Post, None, &["10"])),
        Entry::Admitted
    );
    assert_eq!(
        enter(&at("/users/auth"), &head(Method::Get, None, &["10"])),
        Entry::Refused(Rejection::MethodNotAllowed)
    );
}

#[test]
fn the_token_is_looked_at_before_the_method() {
    let target = at("/guilds");
    assert_eq!(
        enter(&target, &head(Method::Delete, None, &[])),
        Entry::Refused(Rejection::MissingHeader { name: "authorization" })
    );
    let request = head(Method::Delete, Some("t"), &[]);
    assert_eq!(
        enter(&target, &request),
        Entry::Validate(TokenCheck { token: "t".to_string(), key: "among us" })
    );
    let mut limiter = message_create_limiter();
    assert_eq!(pass_token(&target, &request, None, &mut limiter), Err(bad_token()));
    assert_eq!(
        pass_token(&target, &request, Some(token(4)), &mut limiter),
        Err(Rejection::MethodNotAllowed)
    );
    let request = head(Method::Post, Some("t"), &["7"]);
    assert_eq!(pass_token(&target, &request, Some(token(4)), &mut limiter), Ok(token(4)));
}

#[test]
fn the_limit_is_looked_at_before_the_method() {
    let target = at("/channels/1/messages");
    let request = head(Method::Get, Some("t"), &[]);
    let mut limiter = message_create_limiter();
    assert_eq!(
        pass_token(&target, &request, Some(token(4)), &mut limiter),
        Err(Rejection::MethodNotAllowed)
    );
    let mut stopped = false;
    for _ in 0..1000 {
        let refused = pass_token(&target, &request, Some(token(4)), &mut limiter).unwrap_err();
        stopped = stopped || limit_exceeded(&refused);
    }
    assert!(stopped);
}

#[test]
fn other_routes_have_no_limit() {
    let target = at("/guilds/1");
    let request = head(Method::Get, Some("t"), &[]);
    let mut limiter = message_create_limiter();
    for _ in 0..1000 {
        assert_eq!(pass_token(&target, &request, Some(token(4)), &mut limiter), Ok(token(4)));
    }
}

#[test]
fn a_refusal_of_the_guard_stands() {
    let request = head(Method::Post, Some("t"), &["7"]);
    assert_eq!(after_guard(&at("/guilds"), &request, Err(bad_token())), Err(bad_token()));
    assert_eq!(after_guard(&at("/guilds"), &request, Ok(token(5))), Ok(token(5)));
}

#[test]
fn rejections_have_the_status_of_their_name() {
    let message = String::new;
    assert_eq!(Rejection::MissingHeader { name: "authorization" }.status(), 400);
    assert_eq!(Rejection::InvalidHeader { name: "authorization" }.status(), 400);
    assert_eq!(Rejection::NotFound.status(), 404);
    assert_eq!(Rejection::InvalidBody.status(), 400);
    assert_eq!(Rejection::MethodNotAllowed.status(), 405);
    assert_eq!(Rejection::LengthRequired.status(), 411);
    assert_eq!(Rejection::PayloadTooLarge.status(), 413);
    assert_eq!(Rejection::Unauthorized { message: message() }.status(), 401);
    assert_eq!(Rejection::BadRequest { message: message() }.status(), 400);
    assert_eq!(Rejection::Forbidden { message: message() }.status(), 403);
    assert_eq!(Rejection::InternalServerError { message: message() }.status(), 500);
}
