//! What a request is answered.

use crate::model::{Channel, Guild, Member, Message, Snowflake, User};
use vstd::prelude::*;

verus! {

/// The text of an answer to a request that the database failed.
pub const DATABASE_ERROR: &'static str = "A database transaction error occured.";

/// Why a request is refused.
#[derive(Debug, PartialEq, Eq)]
pub enum Rejection {
    NotFound,
    /// The body is not of the kind that the route reads.
    InvalidBody,
    MissingHeader { name: &'static str },
    InvalidHeader { name: &'static str },
    MethodNotAllowed,
    LengthRequired,
    PayloadTooLarge,
    Unauthorized { message: String },
    BadRequest { message: String },
    Forbidden { message: String },
    InternalServerError { message: String },
}

pub enum RejectionView {
    NotFound,
    InvalidBody,
    MissingHeader { name: Seq<char> },
    InvalidHeader { name: Seq<char> },
    MethodNotAllowed,
    LengthRequired,
    PayloadTooLarge,
    Unauthorized { message: Seq<char> },
    BadRequest { message: Seq<char> },
    Forbidden { message: Seq<char> },
    InternalServerError { message: Seq<char> },
}

impl View for Rejection {
    type V = RejectionView;

    open spec fn view(&self) -> RejectionView {
        match self {
            Rejection::NotFound => RejectionView::NotFound,
            Rejection::InvalidBody => RejectionView::InvalidBody,
            Rejection::MissingHeader { name } => RejectionView::MissingHeader { name: name@ },
            Rejection::InvalidHeader { name } => RejectionView::InvalidHeader { name: name@ },
            Rejection::MethodNotAllowed => RejectionView::MethodNotAllowed,
            Rejection::LengthRequired => RejectionView::LengthRequired,
            Rejection::PayloadTooLarge => RejectionView::PayloadTooLarge,
            Rejection::Unauthorized { message } => RejectionView::Unauthorized {
                message: message@,
            },
            Rejection::BadRequest { message } => RejectionView::BadRequest { message: message@ },
            Rejection::Forbidden { message } => RejectionView::Forbidden { message: message@ },
            Rejection::InternalServerError { message } => RejectionView::InternalServerError {
                message: message@,
            },
        }
    }
}

/// The HTTP status that a rejection is named after.
pub open spec fn rejection_status(rejection: RejectionView) -> u16 {
    match rejection {
        RejectionView::NotFound => 404,
        RejectionView::InvalidBody => 400,
        RejectionView::MissingHeader { .. } => 400,
        RejectionView::InvalidHeader { .. } => 400,
        RejectionView::MethodNotAllowed => 405,
        RejectionView::LengthRequired => 411,
        RejectionView::PayloadTooLarge => 413,
        RejectionView::Unauthorized { .. } => 401,
        RejectionView::BadRequest { .. } => 400,
        RejectionView::Forbidden { .. } => 403,
        RejectionView::InternalServerError { .. } => 500,
    }
}

impl Rejection {
    /// The HTTP status that the rejection is named after.
    pub fn status(&self) -> (status: u16)
        ensures
            status == rejection_status(self@),
    {
        match self {
            Rejection::NotFound => 404,
            Rejection::InvalidBody => 400,
            Rejection::MissingHeader { .. } => 400,
            Rejection::InvalidHeader { .. } => 400,
            Rejection::MethodNotAllowed => 405,
            Rejection::LengthRequired => 411,
            Rejection::PayloadTooLarge => 413,
            Rejection::Unauthorized { .. } => 401,
            Rejection::BadRequest { .. } => 400,
            Rejection::Forbidden { .. } => 403,
            Rejection::InternalServerError { .. } => 500,
        }
    }

    pub fn unauthorized(message: &str) -> (rejection: Rejection)
        ensures
            rejection@ == (RejectionView::Unauthorized { message: message@ }),
    {
        Rejection::Unauthorized { message: message.to_owned() }
    }

    pub fn bad_request(message: &str) -> (rejection: Rejection)
        ensures
            rejection@ == (RejectionView::BadRequest { message: message@ }),
    {
        Rejection::BadRequest { message: message.to_owned() }
    }

    pub fn forbidden(message: &str) -> (rejection: Rejection)
        ensures
            rejection@ == (RejectionView::Forbidden { message: message@ }),
    {
        Rejection::Forbidden { message: message.to_owned() }
    }

    pub fn internal_server_error(message: &str) -> (rejection: Rejection)
        ensures
            rejection@ == (RejectionView::InternalServerError { message: message@ }),
    {
        Rejection::InternalServerError { message: message.to_owned() }
    }
}

/// How a request went that was not refused.
#[derive(Clone, Copy, Debug, PartialEq, Eq, Structural)]
pub enum Status {
    Success,
    Created,
}

impl Status {
    pub open spec fn spec_code(self) -> u16 {
        match self {
            Status::Success => 200,
            Status::Created => 201,
        }
    }

    /// The HTTP status code.
    pub fn code(self) -> (code: u16)
        ensures
            code == self.spec_code(),
    {
        match self {
            Status::Success => 200,
            Status::Created => 201,
        }
    }
}

/// What a reply holds.
#[derive(Debug, PartialEq, Eq)]
pub enum Body {
    Message(Message),
    User(User),
    Guild(Guild),
    Guilds(Vec<Guild>),
    Channel(Channel),
    Member(Member),
    /// A user who has just logged in, with the text of the session token.
    Session { user_id: Snowflake, token: String },
}

pub enum BodyView {
    Message(Message),
    User(User),
    Guild(Guild),
    Guilds(Seq<Guild>),
    Channel(Channel),
    Member(Member),
    Session { user_id: Snowflake, token: Seq<char> },
}

impl View for Body {
    type V = BodyView;

    open spec fn view(&self) -> BodyView {
        match self {
            Body::Message(message) => BodyView::Message(*message),
            Body::User(user) => BodyView::User(*user),
            Body::Guild(guild) => BodyView::Guild(*guild),
            Body::Guilds(guilds) => BodyView::Guilds(guilds@),
            Body::Channel(channel) => BodyView::Channel(*channel),
            Body::Member(member) => BodyView::Member(*member),
            Body::Session { user_id, token } => BodyView::Session {
                user_id: *user_id,
                token: token@,
            },
        }
    }
}

/// The answer to a request that was not refused.
#[derive(Debug, PartialEq, Eq)]
pub struct Reply {
    pub status: Status,
    pub body: Body,
}

pub struct ReplyView {
    pub status: Status,
    pub body: BodyView,
}

impl View for Reply {
    type V = ReplyView;

    open spec fn view(&self) -> ReplyView {
        ReplyView { status: self.status, body: self.body@ }
    }
}

/// A rejection keeps the text that it is made with.
pub proof fn law_rejections_keep_their_text(message: String, name: &'static str)
    ensures
        Rejection::NotFound@ == RejectionView::NotFound,
        Rejection::InvalidBody@ == RejectionView::InvalidBody,
        (Rejection::MissingHeader { name })@ == (RejectionView::MissingHeader { name: name@ }),
        (Rejection::InvalidHeader { name })@ == (RejectionView::InvalidHeader { name: name@ }),
        Rejection::MethodNotAllowed@ == RejectionView::MethodNotAllowed,
        Rejection::LengthRequired@ == RejectionView::LengthRequired,
        Rejection::PayloadTooLarge@ == RejectionView::PayloadTooLarge,
        (Rejection::Unauthorized { message })@ == (RejectionView::Unauthorized {
            message: message@,
        }),
        (Rejection::BadRequest { message })@ == (RejectionView::BadRequest { message: message@ }),
        (Rejection::Forbidden { message })@ == (RejectionView::Forbidden { message: message@ }),
        (Rejection::InternalServerError { message })@ == (RejectionView::InternalServerError {
            message: message@,
        }),
{
}

/// A reply shows the record that it holds, whole and unchanged.
pub proof fn law_replies_show_what_they_hold(
    status: Status,
    message: Message,
    user: User,
    guild: Guild,
    guilds: Vec<Guild>,
    channel: Channel,
    member: Member,
    user_id: Snowflake,
    token: String,
)
    ensures
        (Reply { status, body: Body::Message(message) })@ == (ReplyView {
            status,
            body: BodyView::Message(message),
        }),
        (Reply { status, body: Body::User(user) })@ == (ReplyView {
            status,
            body: BodyView::User(user),
        }),
        (Reply { status, body: Body::Guild(guild) })@ == (ReplyView {
            status,
            body: BodyView::Guild(guild),
        }),
        (Reply { status, body: Body::Guilds(guilds) })@ == (ReplyView {
            status,
            body: BodyView::Guilds(guilds@),
        }),
        (Reply { status, body: Body::Channel(channel) })@ == (ReplyView {
            status,
            body: BodyView::Channel(channel),
        }),
        (Reply { status, body: Body::Member(member) })@ == (ReplyView {
            status,
            body: BodyView::Member(member),
        }),
        (Reply { status, body: Body::Session { user_id, token } })@ == (ReplyView {
            status,
            body: BodyView::Session { user_id, token: token@ },
        }),
{
}

/// The HTTP status of every rejection: 400 where the request is at fault in what it says, and
/// otherwise the status of the same name.
pub proof fn law_rejection_statuses(rejection: Rejection, status: u16)
    requires
        call_ensures(Rejection::status, (&rejection,), status),
    ensures
        status == 400 <==> (rejection is InvalidBody || rejection is MissingHeader || rejection
            is InvalidHeader || rejection is BadRequest),
        status == 401 <==> rejection is Unauthorized,
        status == 403 <==> rejection is Forbidden,
        status == 404 <==> rejection is NotFound,
        status == 405 <==> rejection is MethodNotAllowed,
        status == 411 <==> rejection is LengthRequired,
        status == 413 <==> rejection is PayloadTooLarge,
        status == 500 <==> rejection is InternalServerError,
{
}

/// The HTTP status of an answer tells whether something was created.
pub proof fn law_reply_statuses(status: Status, code: u16)
    requires
        call_ensures(Status::code, (status,), code),
    ensures
        status == Status::Success <==> code == 200,
        status == Status::Created <==> code == 201,
{
}

/// A rejection is made with the whole of the text that it is given, whatever that is.
pub proof fn law_rejections_are_made_with_their_text(message: &str, rejection: Rejection)
    ensures
        call_ensures(Rejection::unauthorized, (message,), rejection) ==> {
            &&& rejection matches Rejection::Unauthorized { message: text }
            &&& text@ == message@
        },
        call_ensures(Rejection::bad_request, (message,), rejection) ==> {
            &&& rejection matches Rejection::BadRequest { message: text }
            &&& text@ == message@
        },
        call_ensures(Rejection::forbidden, (message,), rejection) ==> {
            &&& rejection matches Rejection::Forbidden { message: text }
            &&& text@ == message@
        },
        call_ensures(Rejection::internal_server_error, (message,), rejection) ==> {
            &&& rejection matches Rejection::InternalServerError { message: text }
            &&& text@ == message@
        },
{
}

} // verus!
