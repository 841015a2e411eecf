//! Looking at the members of a guild.

use crate::effects::{Action, Event};
use crate::flow::{success, Flow, Step, StepView};
use crate::guilds::{not_permitted, refuse_not_permitted};
use crate::model::{Member, Snowflake, Token};
use crate::reply::{Body, BodyView, Rejection, RejectionView};
use vstd::pervasive::unreached;
use vstd::prelude::*;

verus! {

pub const NO_MEMBER: &'static str = "Member does not exist or is not available.";

/// Where looking at a member stands, named after what is waited for.
pub enum FetchMemberFlow {
    Member { user_id: Snowflake, guild_id: Snowflake },
    Requester { member: Member },
}

pub open spec fn no_member() -> StepView {
    StepView::Refuse(RejectionView::BadRequest { message: NO_MEMBER@ })
}

fn refuse_no_member() -> (step: Step)
    ensures
        step@ == no_member(),
{
    Step::Refuse(Rejection::bad_request(NO_MEMBER))
}

pub open spec fn fetch_member_start(
    guild_id: Snowflake,
    member_id: Snowflake,
    token: Token,
) -> StepView {
    StepView::Perform {
        flow: Flow::FetchMember(FetchMemberFlow::Member { user_id: token.user_id, guild_id }),
        action: Action::FetchMember { user_id: member_id, guild_id },
    }
}

/// Only a member of the same guild is shown the member.
pub open spec fn fetch_member_next(flow: FetchMemberFlow, event: Event) -> StepView {
    match (flow, event) {
        (FetchMemberFlow::Member { .. }, Event::Member(None)) => no_member(),
        (FetchMemberFlow::Member { user_id, guild_id }, Event::Member(Some(member))) =>
            StepView::Perform {
            flow: Flow::FetchMember(FetchMemberFlow::Requester { member }),
            action: Action::FetchMember { user_id, guild_id },
        },
        (FetchMemberFlow::Requester { .. }, Event::Member(None)) => not_permitted(),
        (FetchMemberFlow::Requester { member }, Event::Member(Some(_))) => success(
            BodyView::Member(member),
        ),
        _ => arbitrary(),
    }
}

/// Fetches a member of a guild.
///
/// GET `/guilds/{guild_id}/members/{member_id}`
pub fn fetch_member(guild_id: Snowflake, member_id: Snowflake, token: Token) -> (step: Step)
    ensures
        step@ == fetch_member_start(guild_id, member_id, token),
{
    Step::Perform {
        flow: Flow::FetchMember(FetchMemberFlow::Member { user_id: token.user_id, guild_id }),
        action: Action::FetchMember { user_id: member_id, guild_id },
    }
}

pub(crate) fn fetch_member_on(flow: FetchMemberFlow, event: Event) -> (step: Step)
    requires
        event is Member,
    ensures
        step@ == fetch_member_next(flow, event),
{
    match (flow, event) {
        (FetchMemberFlow::Member { .. }, Event::Member(None)) => refuse_no_member(),
        (FetchMemberFlow::Member { user_id, guild_id }, Event::Member(Some(member))) =>
            Step::Perform {
            flow: Flow::FetchMember(FetchMemberFlow::Requester { member }),
            action: Action::FetchMember { user_id, guild_id },
        },
        (FetchMemberFlow::Requester { .. }, Event::Member(None)) => refuse_not_permitted(),
        (FetchMemberFlow::Requester { member }, Event::Member(Some(_))) => Step::success(
            Body::Member(member),
        ),
        _ => unreached(),
    }
}

pub open spec fn fetch_member_self_start(guild_id: Snowflake, token: Token) -> StepView {
    StepView::Perform {
        flow: Flow::FetchMemberSelf,
        action: Action::FetchMember { user_id: token.user_id, guild_id },
    }
}

pub open spec fn fetch_member_self_next(event: Event) -> StepView {
    match event {
        Event::Member(None) => no_member(),
        Event::Member(Some(member)) => success(BodyView::Member(member)),
        _ => arbitrary(),
    }
}

/// Fetches the user who asks as a member of a guild.
///
/// GET `/guilds/{guild_id}/members/@self`
pub fn fetch_member_self(guild_id: Snowflake, token: Token) -> (step: Step)
    ensures
        step@ == fetch_member_self_start(guild_id, token),
{
    Step::Perform {
        flow: Flow::FetchMemberSelf,
        action: Action::FetchMember { user_id: token.user_id, guild_id },
    }
}

pub(crate) fn fetch_member_self_on(event: Event) -> (step: Step)
    requires
        event is Member,
    ensures
        step@ == fetch_member_self_next(event),
{
    match event {
        Event::Member(None) => refuse_no_member(),
        Event::Member(Some(member)) => Step::success(Body::Member(member)),
        _ => unreached(),
    }
}

} // verus!
