//! A request on its way to the handler that answers it.
//!
//! No handler starts before the request has passed all the checks of its route: an [`Admitted`]
//! request is only to be had by putting one through them.

use crate::admission::{
    admitted_with, agree_on, bad_token, decided_at, enter, is_in_order, is_outcome, lemma_in_order,
    pass_token, request_fault, token_text, Entry, HeaderValue, RequestHead, TokenCheck, TOKEN_KEY,
};
use crate::flow::Step;
use crate::handlers::{begin, kind_of, law_targets_can_start, start, Payload};
use crate::limiter::{
    admits, checked_at, instant_text, limiter_burst, refusal_of, retry_at, IdLimiter,
};
use crate::model::Token;
use crate::reply::{Rejection, RejectionView};
use crate::routes::{
    find_route, law_path_leads_to_one_target, leads_to, BodyKind, Guard, Target,
};
use vstd::prelude::*;

verus! {

/// A request whose token is to be validated.
pub struct Guarded {
    target: Target,
    head: RequestHead,
    check: TokenCheck,
}

/// A request that has passed the checks of its route.
pub struct Admitted {
    target: Target,
    token: Option<Token>,
}

/// Some path leads to `target`.
pub open spec fn is_reachable(target: Target) -> bool {
    exists|path: Seq<char>| #[trigger] leads_to(path, Some(target))
}

impl Guarded {
    /// What the request is bound for.
    pub closed spec fn target(self) -> Target {
        self.target
    }

    pub closed spec fn head(self) -> RequestHead {
        self.head
    }

    /// The token to validate.
    pub closed spec fn spec_check(self) -> TokenCheck {
        self.check
    }

    #[verifier::type_invariant]
    spec fn is_valid(self) -> bool {
        is_reachable(self.target)
    }

    /// The token to validate.
    pub fn check(&self) -> (check: &TokenCheck)
        ensures
            *check == self.spec_check(),
    {
        &self.check
    }

    /// The kind of body that will be read if the request is admitted.
    pub fn body(&self) -> (kind: BodyKind)
        ensures
            kind == self.target().body,
    {
        self.target.body
    }
}

impl Admitted {
    /// What the request is bound for.
    pub closed spec fn target(self) -> Target {
        self.target
    }

    /// The token that the request was admitted with, where its route asks for one.
    pub closed spec fn token(self) -> Option<Token> {
        self.token
    }

    #[verifier::type_invariant]
    spec fn is_valid(self) -> bool {
        &&& is_reachable(self.target)
        &&& self.target.guard == Guard::Open || self.token is Some
    }

    /// The kind of body that is to be read.
    pub fn body(&self) -> (kind: BodyKind)
        ensures
            kind == self.target().body,
    {
        self.target.body
    }
}

/// How a request stands that has come in.
pub enum Stage {
    /// The token is to be validated.
    Token(Guarded),
    /// The body is to be read.
    Body(Admitted),
    Refused(Rejection),
}

/// `stage` is how a request stands that is bound for `target`, if for any.
pub open spec fn received(target: Option<Target>, head: RequestHead, stage: Stage) -> bool {
    match target {
        None => stage matches Stage::Refused(rejection) && rejection@ == RejectionView::NotFound,
        Some(target) => if target.guard == Guard::Open {
            match request_fault(target, head) {
                None => {
                    &&& stage matches Stage::Body(admitted)
                    &&& admitted.target() == target
                    &&& admitted.token() is None
                },
                Some(fault) => stage matches Stage::Refused(rejection) && rejection@ == fault,
            }
        } else {
            match token_text(head.authorization) {
                Ok(text) => {
                    &&& stage matches Stage::Token(guarded)
                    &&& guarded.target() == target
                    &&& guarded.head() == head
                    &&& guarded.spec_check().token@ == text
                    &&& guarded.spec_check().key@ == TOKEN_KEY@
                },
                Err(why) => stage matches Stage::Refused(rejection) && rejection@ == why,
            }
        },
    }
}

/// Takes in a request.
pub fn receive(path: &str, head: RequestHead) -> (stage: Stage)
    ensures
        exists|target: Option<Target>| #[trigger]
            leads_to(path@, target) && received(target, head, stage),
{
    let found = find_route(path);
    match found {
        None => Stage::Refused(Rejection::NotFound),
        Some(target) => {
            assert(is_reachable(target));
            match enter(&target, &head) {
                Entry::Admitted => Stage::Body(Admitted { target, token: None }),
                Entry::Validate(check) => Stage::Token(Guarded { target, head, check }),
                Entry::Refused(rejection) => Stage::Refused(rejection),
            }
        },
    }
}

/// The token of a request that was admitted, or why it was not.
pub open spec fn token_of(outcome: Result<Admitted, Rejection>) -> Result<Token, Rejection> {
    match outcome {
        Ok(admitted) => Ok(admitted.token()->0),
        Err(rejection) => Err(rejection),
    }
}

/// Goes on with a request whose token was looked at; `found` is what was found.
pub fn validated(guarded: Guarded, found: Option<Token>, limiter: &mut IdLimiter) -> (outcome:
    Result<Admitted, Rejection>)
    ensures
        outcome matches Ok(admitted) ==> admitted.target() == guarded.target() && admitted.token()
            is Some,
        match found {
            None => {
                &&& *final(limiter) == *old(limiter)
                &&& outcome matches Err(rejection) && rejection@ == bad_token()
            },
            Some(token) => if guarded.target().guard == Guard::TokenAndLimit {
                &&& limiter_burst(*final(limiter)) > 0
                &&& exists|now: nat| #[trigger]
                    decided_at(
                        *old(limiter),
                        *final(limiter),
                        token,
                        guarded.target(),
                        guarded.head(),
                        token_of(outcome),
                        now,
                    )
            } else {
                &&& *final(limiter) == *old(limiter)
                &&& admitted_with(token, guarded.target(), guarded.head(), token_of(outcome))
            },
        },
{
    proof {
        use_type_invariant(&guarded);
    }
    let Guarded { target, head, check: _ } = guarded;
    match pass_token(&target, &head, found, limiter) {
        Ok(token) => Ok(Admitted { target, token: Some(token) }),
        Err(rejection) => Err(rejection),
    }
}

/// Starts the handler that a request is bound for, once its body has been read.
pub fn start_handler(admitted: Admitted, payload: Payload) -> (started: Result<Step, Rejection>)
    ensures
        if kind_of(payload) == admitted.target().body {
            &&& started matches Ok(step)
            &&& start(admitted.target().endpoint, admitted.token(), payload) == Some(step@)
        } else {
            started matches Err(rejection) && rejection@ == RejectionView::InvalidBody
        },
{
    proof {
        use_type_invariant(&admitted);
        let path = choose|path: Seq<char>| #[trigger] leads_to(path, Some(admitted.target));
        law_targets_can_start(path, admitted.target, admitted.token, payload);
    }
    match begin(admitted.target.endpoint, admitted.token, payload) {
        Some(step) => Ok(step),
        None => Err(Rejection::InvalidBody),
    }
}

/// The request comes as far as the rate limit of its route.
pub open spec fn is_limited(
    target: Option<Target>,
    head: RequestHead,
    found: Option<Token>,
) -> bool {
    &&& target matches Some(target)
    &&& target.guard == Guard::TokenAndLimit
    &&& token_text(head.authorization) is Ok
    &&& found is Some
}

/// Why a request is refused, if it is, before a handler starts: for the first of the checks that
/// it fails. `target` is what it is bound for, `found` is what was found of its token, and `now`
/// is what the limiter's clock reads.
pub open spec fn refusal(
    target: Option<Target>,
    head: RequestHead,
    found: Option<Token>,
    payload: Payload,
    limiter: IdLimiter,
    now: nat,
) -> Option<RejectionView> {
    match target {
        None => Some(RejectionView::NotFound),
        Some(target) => if target.guard != Guard::Open && token_text(head.authorization) is Err {
            Some(token_text(head.authorization)->Err_0)
        } else if target.guard != Guard::Open && found is None {
            Some(bad_token())
        } else if target.guard == Guard::TokenAndLimit && !admits(
            limiter,
            found->0.user_id.value,
            now,
        ) {
            Some(refusal_of(limiter, found->0.user_id.value))
        } else if request_fault(target, head) is Some {
            request_fault(target, head)
        } else if kind_of(payload) != target.body {
            Some(RejectionView::InvalidBody)
        } else {
            None
        },
    }
}

/// A request to `path`, of which `found` and `payload` are what was found of its token and in its
/// body, comes to `started` when the limiter's clock reads `now`. It starts the handler that its
/// path leads to if nothing is to be said against it, with its token where the route asks for
/// one. The limiter is checked once, and only if the request comes as far as that.
pub open spec fn opened_at(
    path: Seq<char>,
    head: RequestHead,
    found: Option<Token>,
    payload: Payload,
    before: IdLimiter,
    after: IdLimiter,
    started: Result<Step, Rejection>,
    target: Option<Target>,
    now: nat,
) -> bool {
    &&& leads_to(path, target)
    &&& if is_limited(target, head, found) {
        let user = found->0.user_id.value;
        checked_at(before, after, user, admits(before, user, now), now)
    } else {
        after == before
    }
    &&& match refusal(target, head, found, payload, before, now) {
        None => {
            let token = if target->0.guard == Guard::Open {
                None
            } else {
                found
            };
            &&& started matches Ok(step)
            &&& start(target->0.endpoint, token, payload) == Some(step@)
        },
        Some(why) => started matches Err(rejection) && rejection@ == why,
    }
}

/// Takes a request all the way to the first step of its handler, where what was found of its
/// token and in its body is known beforehand.
pub fn open_request(
    path: &str,
    head: RequestHead,
    found: Option<Token>,
    payload: Payload,
    limiter: &mut IdLimiter,
) -> (started: Result<Step, Rejection>)
    ensures
        exists|target: Option<Target>, now: nat| #[trigger]
            opened_at(
                path@,
                head,
                found,
                payload,
                *old(limiter),
                *final(limiter),
                started,
                target,
                now,
            ),
{
    let ghost before = *limiter;
    let ghost mut now: nat = 0;
    let stage = receive(path, head);
    let ghost target = choose|target: Option<Target>| #[trigger]
        leads_to(path@, target) && received(target, head, stage);
    let started = match stage {
        Stage::Refused(rejection) => Err(rejection),
        Stage::Body(admitted) => start_handler(admitted, payload),
        Stage::Token(guarded) => {
            let outcome = validated(guarded, found, limiter);
            proof {
                if is_limited(target, head, found) {
                    now = choose|now: nat| #[trigger]
                        decided_at(
                            before,
                            *limiter,
                            found->0,
                            target->0,
                            head,
                            token_of(outcome),
                            now,
                        );
                }
            }
            match outcome {
                Ok(admitted) => start_handler(admitted, payload),
                Err(rejection) => Err(rejection),
            }
        },
    };
    assert(opened_at(path@, head, found, payload, before, *limiter, started, target, now));
    started
}

/// A handler starts if and only if the path leads to an endpoint, the authorization header holds
/// a text that was found valid and its user is within the rate limit where the route asks for
/// that, method and length of the request are in order, and its body is of the kind that the route
/// reads. It is the endpoint's handler that starts, with the token that was found and the payload
/// as they are. Otherwise the request is refused for the first of these that fails.
pub proof fn law_handlers_start_after_the_checks(
    path: Seq<char>,
    head: RequestHead,
    found: Option<Token>,
    payload: Payload,
    before: IdLimiter,
    after: IdLimiter,
    started: Result<Step, Rejection>,
    target: Option<Target>,
    now: nat,
)
    requires
        opened_at(path, head, found, payload, before, after, started, target, now),
    ensures
        leads_to(path, target),
        started is Ok <==> {
            &&& target matches Some(target)
            &&& target.guard != Guard::Open ==> found is Some && head.authorization is Some
                && head.authorization->0 is Text
            &&& target.guard == Guard::TokenAndLimit ==> admits(
                before,
                found->0.user_id.value,
                now,
            )
            &&& is_in_order(target, head)
            &&& kind_of(payload) == target.body
        },
        started matches Ok(step) ==> start(
            target->0.endpoint,
            if target->0.guard == Guard::Open {
                None
            } else {
                found
            },
            payload,
        ) == Some(step@),
        started matches Err(rejection) ==> match target {
            None => rejection is NotFound,
            Some(target) => if target.guard != Guard::Open && head.authorization is None {
                rejection is MissingHeader
            } else if target.guard != Guard::Open && head.authorization == Some(
                HeaderValue::Opaque,
            ) {
                rejection is InvalidHeader
            } else if target.guard != Guard::Open && found is None {
                &&& rejection matches Rejection::Unauthorized { message }
                &&& message@ == "Invalid or expired token"@
            } else if target.guard == Guard::TokenAndLimit && !admits(
                before,
                found->0.user_id.value,
                now,
            ) {
                &&& rejection matches Rejection::BadRequest { message }
                &&& message@ == "Rate limit exceeded, try again at: "@ + instant_text(
                    retry_at(before, found->0.user_id.value),
                )
            } else if head.method != target.method {
                rejection is MethodNotAllowed
            } else if is_in_order(target, head) {
                rejection is InvalidBody
            } else if exists|n: u64| #[trigger] agree_on(head.content_length@, n) {
                rejection is PayloadTooLarge
            } else {
                rejection is LengthRequired
            },
        },
        if target is Some && target->0.guard == Guard::TokenAndLimit && found is Some
            && head.authorization is Some && head.authorization->0 is Text {
            let user = found->0.user_id.value;
            checked_at(before, after, user, admits(before, user, now), now)
        } else {
            after == before
        },
{
    if let Some(target) = target {
        lemma_in_order(target, head);
    }
}

/// The same of a request of which all is known: it comes to what its checks come to, at some
/// reading of the limiter's clock.
pub proof fn law_requests_are_opened(
    path: &str,
    head: RequestHead,
    found: Option<Token>,
    payload: Payload,
    limiter: &mut IdLimiter,
    started: Result<Step, Rejection>,
    target: Option<Target>,
)
    requires
        call_ensures(open_request, (path, head, found, payload, limiter), started),
        leads_to(path@, target),
    ensures
        exists|now: nat| #[trigger]
            opened_at(
                path@,
                head,
                found,
                payload,
                *old(limiter),
                *final(limiter),
                started,
                target,
                now,
            ),
{
    let (other, now) = choose|other: Option<Target>, now: nat| #[trigger]
        opened_at(
            path@,
            head,
            found,
            payload,
            *old(limiter),
            *final(limiter),
            started,
            other,
            now,
        );
    law_path_leads_to_one_target(path@, target, other);
    assert(opened_at(
        path@,
        head,
        found,
        payload,
        *old(limiter),
        *final(limiter),
        started,
        target,
        now,
    ));
}

/// A request that comes in goes where its path leads. On an open route its body is read if and
/// only if it is in order; on any other the text of its authorization header is validated, all of
/// it. No token is taken from a request to an open route.
pub proof fn law_requests_are_received(
    path: &str,
    head: RequestHead,
    stage: Stage,
    target: Option<Target>,
)
    requires
        call_ensures(receive, (path, head), stage),
        leads_to(path@, target),
    ensures
        match target {
            None => stage matches Stage::Refused(rejection) && rejection is NotFound,
            Some(target) => if target.guard == Guard::Open {
                match stage {
                    Stage::Token(_) => false,
                    Stage::Body(admitted) => {
                        &&& is_in_order(target, head)
                        &&& admitted.target() == target
                        &&& admitted.token() is None
                    },
                    Stage::Refused(rejection) => !is_in_order(target, head) && if head.method
                        != target.method {
                        rejection is MethodNotAllowed
                    } else if exists|n: u64| #[trigger] agree_on(head.content_length@, n) {
                        rejection is PayloadTooLarge
                    } else {
                        rejection is LengthRequired
                    },
                }
            } else {
                match head.authorization {
                    Some(HeaderValue::Text(text)) => {
                        &&& stage matches Stage::Token(guarded)
                        &&& guarded.target() == target
                        &&& guarded.head() == head
                        &&& guarded.spec_check().token@ == text@
                        &&& guarded.spec_check().key@ == "among us"@
                    },
                    Some(HeaderValue::Opaque) => {
                        &&& stage matches Stage::Refused(rejection)
                        &&& rejection is InvalidHeader
                    },
                    None => {
                        &&& stage matches Stage::Refused(rejection)
                        &&& rejection is MissingHeader
                    },
                }
            },
        },
{
    let other = choose|other: Option<Target>| #[trigger]
        leads_to(path@, other) && received(other, head, stage);
    law_path_leads_to_one_target(path@, target, other);
    if let Some(target) = target {
        lemma_in_order(target, head);
    }
}

/// A request goes on from its token as its token and its route have it: it is admitted, to where
/// it was bound for and with the token that was found, or refused.
pub proof fn law_requests_go_on_from_the_token(
    guarded: Guarded,
    found: Option<Token>,
    limiter: &mut IdLimiter,
    outcome: Result<Admitted, Rejection>,
)
    requires
        call_ensures(validated, (guarded, found, limiter), outcome),
    ensures
        found is None || guarded.target().guard != Guard::TokenAndLimit ==> *final(limiter)
            == *old(limiter),
        outcome matches Ok(admitted) ==> {
            &&& found is Some
            &&& admitted.target() == guarded.target()
            &&& admitted.token() == found
        },
        match found {
            None => {
                &&& outcome matches Err(Rejection::Unauthorized { message })
                &&& message@ == "Invalid or expired token"@
            },
            Some(token) => exists|within: bool|
                {
                    &&& guarded.target().guard == Guard::TokenAndLimit ==> exists|now: nat|
                        #[trigger]
                        checked_at(
                            *old(limiter),
                            *final(limiter),
                            token.user_id.value,
                            within,
                            now,
                        )
                    &&& guarded.target().guard != Guard::TokenAndLimit ==> within
                    &&& #[trigger] is_outcome(
                        *old(limiter),
                        token,
                        guarded.target(),
                        guarded.head(),
                        within,
                        token_of(outcome),
                    )
                },
        },
{
    let target = guarded.target();
    let head = guarded.head();
    lemma_in_order(target, head);
    if let Some(token) = found {
        let user = token.user_id.value;
        if target.guard == Guard::TokenAndLimit {
            let now = choose|now: nat| #[trigger]
                decided_at(
                    *old(limiter),
                    *final(limiter),
                    token,
                    target,
                    head,
                    token_of(outcome),
                    now,
                );
            let within = admits(*old(limiter), user, now);
            assert(checked_at(*old(limiter), *final(limiter), user, within, now));
            assert(is_outcome(*old(limiter), token, target, head, within, token_of(outcome)));
        } else {
            assert(is_outcome(*old(limiter), token, target, head, true, token_of(outcome)));
        }
    }
}

/// The handler of an admitted request starts if and only if the body is of the kind that its
/// route reads, and it is the handler of the endpoint that the request was admitted to, with the
/// token that it was admitted with and the payload as it is.
pub proof fn law_admitted_requests_start(
    admitted: Admitted,
    payload: Payload,
    started: Result<Step, Rejection>,
)
    requires
        call_ensures(start_handler, (admitted, payload), started),
    ensures
        match started {
            Ok(step) => {
                &&& kind_of(payload) == admitted.target().body
                &&& start(admitted.target().endpoint, admitted.token(), payload) == Some(step@)
            },
            Err(rejection) => {
                &&& kind_of(payload) != admitted.target().body
                &&& rejection is InvalidBody
            },
        },
{
}

/// Before its body or its token is looked at, a request tells which kind of body its route reads
/// and which token is to be validated.
pub proof fn law_stages_tell_what_they_need(
    guarded: Guarded,
    admitted: Admitted,
    check: &TokenCheck,
    guarded_body: BodyKind,
    admitted_body: BodyKind,
)
    requires
        call_ensures(Guarded::check, (&guarded,), check),
        call_ensures(Guarded::body, (&guarded,), guarded_body),
        call_ensures(Admitted::body, (&admitted,), admitted_body),
    ensures
        *check == guarded.spec_check(),
        guarded_body == guarded.target().body,
        admitted_body == admitted.target().body,
{
}

} // verus!
