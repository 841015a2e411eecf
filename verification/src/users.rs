//! Registering, logging in, and looking at oneself.

use crate::admission::TOKEN_KEY;
use crate::effects::{Action, Event};
use crate::flow::{created, database_failed, success, Flow, Step, StepView};
use crate::model::{CreateUser, Credentials, Snowflake, StoredCredentials, Token, User};
use crate::reply::{Body, BodyView, Rejection, RejectionView};
use crate::secret::secret_text;
use vstd::pervasive::unreached;
use vstd::prelude::*;

verus! {

pub const INVALID_CREDENTIALS: &'static str = "Invalid credentials";

pub const TOKEN_FAILED: &'static str = "Failed to generate session token.";

/// Where registering a user stands, named after what is waited for.
pub enum UserCreateFlow {
    Build { password: String },
    Namesake { user: User, password: String },
    Hash { user: User },
    CommitUser { user: User, credentials: StoredCredentials },
    CommitCredentials { user: User },
}

/// Where logging in stands, named after what is waited for.
pub enum UserAuthFlow {
    Validate,
    Issue { user_id: Snowflake },
}

/// What a user is told whose name is taken.
pub open spec fn name_taken(username: Seq<char>) -> Seq<char> {
    "User with username "@ + username + " already exists"@
}

pub open spec fn user_create_start(payload: CreateUser) -> StepView {
    StepView::Perform {
        flow: Flow::UserCreate(UserCreateFlow::Build { password: payload.password }),
        action: Action::BuildUser { payload },
    }
}

/// The user is stored if the payload is in order and the name is free; the password hash is
/// stored after the user, whom it refers to. Then the request is answered with the user.
pub open spec fn user_create_next(flow: UserCreateFlow, event: Event) -> StepView {
    match (flow, event) {
        (UserCreateFlow::Build { .. }, Event::UserBuilt(Err(why))) => StepView::Refuse(
            RejectionView::BadRequest { message: why@ },
        ),
        (UserCreateFlow::Build { password }, Event::UserBuilt(Ok(user))) => StepView::Perform {
            flow: Flow::UserCreate(UserCreateFlow::Namesake { user, password }),
            action: Action::FetchUserByUsername { username: user.username },
        },
        (UserCreateFlow::Namesake { user, .. }, Event::User(Some(_))) => StepView::Refuse(
            RejectionView::BadRequest { message: name_taken(user.username@) },
        ),
        (UserCreateFlow::Namesake { user, password }, Event::User(None)) => StepView::Perform {
            flow: Flow::UserCreate(UserCreateFlow::Hash { user }),
            action: Action::HashPassword { password },
        },
        (UserCreateFlow::Hash { user }, Event::PasswordHashed(hash)) => StepView::Perform {
            flow: Flow::UserCreate(
                UserCreateFlow::CommitUser {
                    user,
                    credentials: StoredCredentials { user_id: user.id, hash },
                },
            ),
            action: Action::CommitUser { user },
        },
        (UserCreateFlow::CommitUser { .. }, Event::Written(false)) => database_failed(),
        (UserCreateFlow::CommitUser { user, credentials }, Event::Written(true)) =>
            StepView::Perform {
            flow: Flow::UserCreate(UserCreateFlow::CommitCredentials { user }),
            action: Action::CommitCredentials { credentials },
        },
        (UserCreateFlow::CommitCredentials { .. }, Event::Written(false)) => database_failed(),
        (UserCreateFlow::CommitCredentials { user }, Event::Written(true)) => created(
            BodyView::User(user),
        ),
        _ => arbitrary(),
    }
}

pub open spec fn user_create_expects(flow: UserCreateFlow, event: Event) -> bool {
    match flow {
        UserCreateFlow::Build { .. } => event is UserBuilt,
        UserCreateFlow::Namesake { .. } => event is User,
        UserCreateFlow::Hash { .. } => event is PasswordHashed,
        UserCreateFlow::CommitUser { .. } => event is Written,
        UserCreateFlow::CommitCredentials { .. } => event is Written,
    }
}

fn name_taken_message(username: &str) -> (message: String)
    ensures
        message@ == name_taken(username@),
{
    "User with username ".to_owned().concat(username).concat(" already exists")
}

/// Registers a new user.
///
/// POST `/users`
pub fn user_create(payload: CreateUser) -> (step: Step)
    ensures
        step@ == user_create_start(payload),
{
    let password = payload.password.clone();
    Step::Perform {
        flow: Flow::UserCreate(UserCreateFlow::Build { password }),
        action: Action::BuildUser { payload },
    }
}

pub(crate) fn user_create_on(flow: UserCreateFlow, event: Event) -> (step: Step)
    requires
        user_create_expects(flow, event),
    ensures
        step@ == user_create_next(flow, event),
{
    match (flow, event) {
        (UserCreateFlow::Build { .. }, Event::UserBuilt(Err(why))) => Step::Refuse(
            Rejection::BadRequest { message: why },
        ),
        (UserCreateFlow::Build { password }, Event::UserBuilt(Ok(user))) => Step::Perform {
            action: Action::FetchUserByUsername { username: user.username.clone() },
            flow: Flow::UserCreate(UserCreateFlow::Namesake { user, password }),
        },
        (UserCreateFlow::Namesake { user, .. }, Event::User(Some(_))) => Step::Refuse(
            Rejection::BadRequest { message: name_taken_message(user.username.as_str()) },
        ),
        (UserCreateFlow::Namesake { user, password }, Event::User(None)) => Step::Perform {
            flow: Flow::UserCreate(UserCreateFlow::Hash { user }),
            action: Action::HashPassword { password },
        },
        (UserCreateFlow::Hash { user }, Event::PasswordHashed(hash)) => {
            let credentials = StoredCredentials { user_id: user.id, hash };
            Step::Perform {
                action: Action::CommitUser { user: user.clone() },
                flow: Flow::UserCreate(UserCreateFlow::CommitUser { user, credentials }),
            }
        },
        (UserCreateFlow::CommitUser { .. }, Event::Written(false)) => Step::database_failed(),
        (UserCreateFlow::CommitUser { user, credentials }, Event::Written(true)) => Step::Perform {
            flow: Flow::UserCreate(UserCreateFlow::CommitCredentials { user }),
            action: Action::CommitCredentials { credentials },
        },
        (UserCreateFlow::CommitCredentials { .. }, Event::Written(false)) =>
            Step::database_failed(),
        (UserCreateFlow::CommitCredentials { user }, Event::Written(true)) => Step::created(
            Body::User(user),
        ),
        _ => unreached(),
    }
}

pub open spec fn user_auth_start(credentials: Credentials) -> StepView {
    StepView::Perform {
        flow: Flow::UserAuth(UserAuthFlow::Validate),
        action: Action::ValidateCredentials { credentials },
    }
}

/// A user whose credentials are right is given a session token, signed with the key that tokens
/// are validated with.
pub open spec fn user_auth_next(flow: UserAuthFlow, event: Event) -> StepView {
    match (flow, event) {
        (UserAuthFlow::Validate, Event::CredentialsValidated(None)) => StepView::Refuse(
            RejectionView::Unauthorized { message: INVALID_CREDENTIALS@ },
        ),
        (UserAuthFlow::Validate, Event::CredentialsValidated(Some(user_id))) =>
            StepView::Perform {
            flow: Flow::UserAuth(UserAuthFlow::Issue { user_id }),
            action: Action::IssueToken { user_id, key: TOKEN_KEY },
        },
        (UserAuthFlow::Issue { .. }, Event::TokenIssued(None)) => StepView::Refuse(
            RejectionView::InternalServerError { message: TOKEN_FAILED@ },
        ),
        (UserAuthFlow::Issue { user_id }, Event::TokenIssued(Some(token))) => success(
            BodyView::Session { user_id, token: secret_text(token) },
        ),
        _ => arbitrary(),
    }
}

pub open spec fn user_auth_expects(flow: UserAuthFlow, event: Event) -> bool {
    match flow {
        UserAuthFlow::Validate => event is CredentialsValidated,
        UserAuthFlow::Issue { .. } => event is TokenIssued,
    }
}

/// Logs a user in.
///
/// POST `/users/auth`
pub fn user_auth(credentials: Credentials) -> (step: Step)
    ensures
        step@ == user_auth_start(credentials),
{
    Step::Perform {
        flow: Flow::UserAuth(UserAuthFlow::Validate),
        action: Action::ValidateCredentials { credentials },
    }
}

pub(crate) fn user_auth_on(flow: UserAuthFlow, event: Event) -> (step: Step)
    requires
        user_auth_expects(flow, event),
    ensures
        step@ == user_auth_next(flow, event),
{
    match (flow, event) {
        (UserAuthFlow::Validate, Event::CredentialsValidated(None)) => Step::Refuse(
            Rejection::unauthorized(INVALID_CREDENTIALS),
        ),
        (UserAuthFlow::Validate, Event::CredentialsValidated(Some(user_id))) => Step::Perform {
            flow: Flow::UserAuth(UserAuthFlow::Issue { user_id }),
            action: Action::IssueToken { user_id, key: TOKEN_KEY },
        },
        (UserAuthFlow::Issue { .. }, Event::TokenIssued(None)) => Step::Refuse(
            Rejection::internal_server_error(TOKEN_FAILED),
        ),
        (UserAuthFlow::Issue { user_id }, Event::TokenIssued(Some(token))) => Step::success(
            Body::Session { user_id, token: token.expose() },
        ),
        _ => unreached(),
    }
}

pub open spec fn user_getself_start(token: Token) -> StepView {
    StepView::Perform {
        flow: Flow::UserGetself,
        action: Action::FetchUser { user_id: token.user_id },
    }
}

pub open spec fn user_getself_next(event: Event) -> StepView {
    match event {
        Event::User(None) => database_failed(),
        Event::User(Some(user)) => success(BodyView::User(user)),
        _ => arbitrary(),
    }
}

/// Fetches the user who asks.
///
/// GET `/users/@self`
pub fn user_getself(token: Token) -> (step: Step)
    ensures
        step@ == user_getself_start(token),
{
    Step::Perform {
        flow: Flow::UserGetself,
        action: Action::FetchUser { user_id: token.user_id },
    }
}

pub(crate) fn user_getself_on(event: Event) -> (step: Step)
    requires
        event is User,
    ensures
        step@ == user_getself_next(event),
{
    match event {
        Event::User(None) => Step::database_failed(),
        Event::User(Some(user)) => Step::success(Body::User(user)),
        _ => unreached(),
    }
}

} // verus!
