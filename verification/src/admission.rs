//! What a request has to pass before its handler runs.
//!
//! The checks come in this order: the session token, the rate limit, the method, the length of
//! the body. A request is refused for the first that it fails.

use crate::limiter::{
    admissions, admits, checked_at, instant_text, is_history, law_burst, limiter_arrivals,
    limiter_burst, limiter_interval, limiter_keys, refusal_of, retry_at, validate_limit, Check,
    IdLimiter,
};
use crate::model::Token;
use crate::reply::{Rejection, RejectionView};
use crate::routes::{BodyKind, Guard, Method, Target, BODY_LIMIT};
use crate::text::{chars_of, number, parse_number};
use vstd::prelude::*;

verus! {

/// The key that session tokens are signed with.
pub const TOKEN_KEY: &'static str = "among us";

/// The header that carries the session token.
pub const TOKEN_HEADER: &'static str = "authorization";

/// The answer to a token that is not valid.
pub const INVALID_TOKEN: &'static str = "Invalid or expired token";

/// The value of a request header.
#[derive(Debug, PartialEq, Eq)]
pub enum HeaderValue {
    Text(String),
    /// Bytes that are not visible text.
    Opaque,
}

/// What the checks read of a request.
#[derive(Debug, PartialEq, Eq)]
pub struct RequestHead {
    pub method: Method,
    /// The first value of the header that carries the session token.
    pub authorization: Option<HeaderValue>,
    /// All values of the content-length header.
    pub content_length: Vec<HeaderValue>,
}

/// A token to validate, and the key to validate it with.
#[derive(Debug, PartialEq, Eq)]
pub struct TokenCheck {
    pub token: String,
    pub key: &'static str,
}

/// The text of the session token, or why there is none.
pub open spec fn token_text(authorization: Option<HeaderValue>) -> Result<
    Seq<char>,
    RejectionView,
> {
    match authorization {
        Some(HeaderValue::Text(text)) => Ok(text@),
        Some(HeaderValue::Opaque) => Err(RejectionView::InvalidHeader { name: TOKEN_HEADER@ }),
        None => Err(RejectionView::MissingHeader { name: TOKEN_HEADER@ }),
    }
}

/// Takes the session token out of its header, to be validated.
pub fn needs_token(authorization: &Option<HeaderValue>) -> (check: Result<TokenCheck, Rejection>)
    ensures
        match token_text(*authorization) {
            Ok(text) => check matches Ok(check) && check.token@ == text && check.key@ == TOKEN_KEY@,
            Err(why) => check matches Err(rejection) && rejection@ == why,
        },
{
    match authorization {
        Some(HeaderValue::Text(text)) => Ok(TokenCheck { token: text.clone(), key: TOKEN_KEY }),
        Some(HeaderValue::Opaque) => Err(Rejection::InvalidHeader { name: TOKEN_HEADER }),
        None => Err(Rejection::MissingHeader { name: TOKEN_HEADER }),
    }
}

/// Whatever text the header holds is the token that is to be validated, all of it, with the key
/// that tokens are signed with. A request is refused only where the header is missing or is no
/// text.
pub proof fn law_header_text_is_the_token(
    authorization: Option<HeaderValue>,
    check: Result<TokenCheck, Rejection>,
)
    requires
        call_ensures(needs_token, (&authorization,), check),
    ensures
        match authorization {
            Some(HeaderValue::Text(text)) => {
                &&& check matches Ok(check)
                &&& check.token@ == text@
                &&& check.key@ == "among us"@
            },
            Some(HeaderValue::Opaque) => {
                &&& check matches Err(Rejection::InvalidHeader { name })
                &&& name@ == "authorization"@
            },
            None => {
                &&& check matches Err(Rejection::MissingHeader { name })
                &&& name@ == "authorization"@
            },
        },
{
}

pub open spec fn bad_token() -> RejectionView {
    RejectionView::Unauthorized { message: INVALID_TOKEN@ }
}

/// Passes a token that was found valid, and refuses the request if none was.
pub fn validate_token(found: Option<Token>) -> (verdict: Result<Token, Rejection>)
    ensures
        match found {
            Some(token) => verdict == Ok::<Token, Rejection>(token),
            None => verdict matches Err(rejection) && rejection@ == bad_token(),
        },
{
    match found {
        Some(token) => Ok(token),
        None => Err(Rejection::unauthorized(INVALID_TOKEN)),
    }
}

/// Passes a token that was found valid if its user is within the rate limit. Without a valid
/// token the limiter is left alone.
pub fn needs_limit(found: Option<Token>, limiter: &mut IdLimiter) -> (verdict: Result<
    Token,
    Rejection,
>)
    ensures
        match found {
            Some(token) => {
                &&& limiter_burst(*final(limiter)) > 0
                &&& exists|now: nat| #[trigger]
                    checked_at(
                        *old(limiter),
                        *final(limiter),
                        token.user_id.value,
                        verdict is Ok,
                        now,
                    )
                &&& match verdict {
                    Ok(passed) => passed == token,
                    Err(rejection) => rejection@ == refusal_of(
                        *old(limiter),
                        token.user_id.value,
                    ),
                }
            },
            None => {
                &&& *final(limiter) == *old(limiter)
                &&& verdict matches Err(rejection) && rejection@ == bad_token()
            },
        },
{
    match validate_token(found) {
        Ok(token) => validate_limit(token, limiter),
        Err(rejection) => Err(rejection),
    }
}

/// The number that a header value writes down.
pub open spec fn header_number(value: HeaderValue) -> Option<u64> {
    match value {
        HeaderValue::Text(text) => number(text@),
        HeaderValue::Opaque => None,
    }
}

/// The length that the content-length headers agree on. There is none if no header is there, if
/// one is no number, or if two differ.
pub open spec fn declared_length(values: Seq<HeaderValue>) -> Option<u64> {
    if values.len() > 0 && forall|i: int|
        0 <= i < values.len() ==> #[trigger] header_number(values[i]) == header_number(values[0]) {
        header_number(values[0])
    } else {
        None
    }
}

fn read_header_number(value: &HeaderValue) -> (read: Option<u64>)
    ensures
        read == header_number(*value),
{
    match value {
        HeaderValue::Text(text) => parse_number(&chars_of(text.as_str())),
        HeaderValue::Opaque => None,
    }
}

/// Reads the declared length of a request body.
pub fn content_length(values: &Vec<HeaderValue>) -> (length: Option<u64>)
    ensures
        length == declared_length(values@),
{
    if values.len() == 0 {
        return None;
    }
    let first = read_header_number(&values[0]);
    let mut i: usize = 1;
    while i < values.len()
        invariant
            1 <= i <= values.len(),
            first == header_number(values[0]),
            forall|j: int|
                0 <= j < i ==> #[trigger] header_number(values[j]) == header_number(values[0]),
        decreases values.len() - i,
    {
        let other = read_header_number(&values[i]);
        let same = match (first, other) {
            (Some(a), Some(b)) => a == b,
            (None, None) => true,
            _ => false,
        };
        if !same {
            assert(header_number(values@[i as int]) != header_number(values@[0]));
            return None;
        }
        i = i + 1;
    }
    first
}

/// Why a request with a valid token is refused, if it is: for its method, or else for the
/// length of its body.
pub open spec fn request_fault(target: Target, head: RequestHead) -> Option<RejectionView> {
    if head.method != target.method {
        Some(RejectionView::MethodNotAllowed)
    } else if target.body == BodyKind::Nothing {
        None
    } else {
        match declared_length(head.content_length@) {
            None => Some(RejectionView::LengthRequired),
            Some(length) => if length > BODY_LIMIT {
                Some(RejectionView::PayloadTooLarge)
            } else {
                None
            },
        }
    }
}

/// Checks the method of a request, and the length of the body where one is read.
pub fn check_request(target: &Target, head: &RequestHead) -> (checked: Result<(), Rejection>)
    ensures
        match request_fault(*target, *head) {
            None => checked is Ok,
            Some(fault) => checked matches Err(rejection) && rejection@ == fault,
        },
{
    if head.method != target.method {
        return Err(Rejection::MethodNotAllowed);
    }
    if target.body == BodyKind::Nothing {
        return Ok(());
    }
    match content_length(&head.content_length) {
        None => Err(Rejection::LengthRequired),
        Some(length) => if length > BODY_LIMIT {
            Err(Rejection::PayloadTooLarge)
        } else {
            Ok(())
        },
    }
}

/// How a request stands before its token, if it needs one, is validated.
#[derive(Debug, PartialEq, Eq)]
pub enum Entry {
    /// The request needs no token and has passed all checks.
    Admitted,
    /// The token is to be validated.
    Validate(TokenCheck),
    Refused(Rejection),
}

/// Starts the checks of a request.
pub fn enter(target: &Target, head: &RequestHead) -> (entry: Entry)
    ensures
        match target.guard {
            Guard::Open => match request_fault(*target, *head) {
                None => entry is Admitted,
                Some(fault) => entry matches Entry::Refused(rejection) && rejection@ == fault,
            },
            Guard::Token | Guard::TokenAndLimit => match token_text(head.authorization) {
                Ok(text) => {
                    &&& entry matches Entry::Validate(check)
                    &&& check.token@ == text
                    &&& check.key@ == TOKEN_KEY@
                },
                Err(why) => entry matches Entry::Refused(rejection) && rejection@ == why,
            },
        },
{
    match target.guard {
        Guard::Open => match check_request(target, head) {
            Ok(()) => Entry::Admitted,
            Err(rejection) => Entry::Refused(rejection),
        },
        Guard::Token | Guard::TokenAndLimit => match needs_token(&head.authorization) {
            Ok(check) => Entry::Validate(check),
            Err(rejection) => Entry::Refused(rejection),
        },
    }
}

/// `admitted` is what remains to be said once the token has passed.
pub open spec fn admitted_with(
    token: Token,
    target: Target,
    head: RequestHead,
    admitted: Result<Token, Rejection>,
) -> bool {
    match request_fault(target, head) {
        None => admitted == Ok::<Token, Rejection>(token),
        Some(fault) => admitted matches Err(rejection) && rejection@ == fault,
    }
}

/// A request with the valid `token`, on a route with a rate limit, is checked once when the
/// limiter's clock reads `now`. Within the limit it goes on to the checks that are left; over
/// it, the user is told when to try again.
pub open spec fn decided_at(
    before: IdLimiter,
    after: IdLimiter,
    token: Token,
    target: Target,
    head: RequestHead,
    admitted: Result<Token, Rejection>,
    now: nat,
) -> bool {
    let within = admits(before, token.user_id.value, now);
    &&& checked_at(before, after, token.user_id.value, within, now)
    &&& if within {
        admitted_with(token, target, head, admitted)
    } else {
        admitted matches Err(rejection) && rejection@ == refusal_of(before, token.user_id.value)
    }
}

/// What follows once the token and the rate limit have been looked at: a request that passed
/// them goes on to the checks that are left.
pub fn after_guard(
    target: &Target,
    head: &RequestHead,
    verdict: Result<Token, Rejection>,
) -> (admitted: Result<Token, Rejection>)
    ensures
        match verdict {
            Ok(token) => admitted_with(token, *target, *head, admitted),
            Err(_) => admitted == verdict,
        },
{
    match verdict {
        Ok(token) => match check_request(target, head) {
            Ok(()) => Ok(token),
            Err(rejection) => Err(rejection),
        },
        Err(rejection) => Err(rejection),
    }
}

/// Goes on with the checks of a request whose token was looked at; `found` is what was found.
/// Where the route has a rate limit, a valid token counts against it, whatever else is wrong
/// with the request.
pub fn pass_token(
    target: &Target,
    head: &RequestHead,
    found: Option<Token>,
    limiter: &mut IdLimiter,
) -> (admitted: Result<Token, Rejection>)
    ensures
        match found {
            None => {
                &&& *final(limiter) == *old(limiter)
                &&& admitted matches Err(rejection) && rejection@ == bad_token()
            },
            Some(token) => if target.guard == Guard::TokenAndLimit {
                &&& limiter_burst(*final(limiter)) > 0
                &&& exists|now: nat| #[trigger]
                    decided_at(
                        *old(limiter),
                        *final(limiter),
                        token,
                        *target,
                        *head,
                        admitted,
                        now,
                    )
            } else {
                &&& *final(limiter) == *old(limiter)
                &&& admitted_with(token, *target, *head, admitted)
            },
        },
{
    let verdict = match target.guard {
        Guard::TokenAndLimit => needs_limit(found, limiter),
        Guard::Open | Guard::Token => validate_token(found),
    };
    let admitted = after_guard(target, head, verdict);
    proof {
        if target.guard == Guard::TokenAndLimit && found is Some {
            let user = found->0.user_id.value;
            let now = choose|now: nat| #[trigger]
                checked_at(*old(limiter), *limiter, user, verdict is Ok, now);
            assert(decided_at(
                *old(limiter),
                *limiter,
                found->0,
                *target,
                *head,
                admitted,
                now,
            ));
        }
    }
    admitted
}

/// A request with a valid token on a route with a rate limit, and what was decided of it.
pub struct Decision {
    pub token: Token,
    pub target: Target,
    pub head: RequestHead,
    pub admitted: Result<Token, Rejection>,
    pub now: nat,
}

/// `decisions` have taken a limiter through `states`.
pub open spec fn are_decided(states: Seq<IdLimiter>, decisions: Seq<Decision>) -> bool {
    &&& states.len() == decisions.len() + 1
    &&& forall|i: int|
        0 <= i < decisions.len() ==> decided_at(
            states[i],
            states[i + 1],
            (#[trigger] decisions[i]).token,
            decisions[i].target,
            decisions[i].head,
            decisions[i].admitted,
            decisions[i].now,
        )
}

/// How many of `decisions` are on requests of `user`, with whatever token and on whatever route.
pub open spec fn requests_of(decisions: Seq<Decision>, user: u64) -> nat
    decreases decisions.len(),
{
    if decisions.len() == 0 {
        0
    } else {
        requests_of(decisions.drop_last(), user) + if decisions.last().token.user_id.value == user {
            1nat
        } else {
            0
        }
    }
}

/// The checks that the limiter made for `decisions`.
spec fn checks_of(states: Seq<IdLimiter>, decisions: Seq<Decision>) -> Seq<Check> {
    Seq::new(
        decisions.len(),
        |i: int|
            Check {
                key: decisions[i].token.user_id.value,
                now: decisions[i].now,
                admitted: admits(
                    states[i],
                    decisions[i].token.user_id.value,
                    decisions[i].now,
                ),
            },
    )
}

/// What was decided before the last request, and the last decision by itself.
proof fn lemma_decided_before(states: Seq<IdLimiter>, decisions: Seq<Decision>, now: nat)
    requires
        are_decided(states, decisions),
        decisions.len() > 0,
        forall|i: int| 0 <= i < decisions.len() ==> (#[trigger] decisions[i]).now == now,
    ensures
        are_decided(states.drop_last(), decisions.drop_last()),
        forall|i: int|
            0 <= i < decisions.len() - 1 ==> (#[trigger] decisions.drop_last()[i]).now == now,
        ({
            let last = decisions.last();
            decided_at(
                states.drop_last().last(),
                states.last(),
                last.token,
                last.target,
                last.head,
                last.admitted,
                now,
            )
        }),
        decisions.last().now == now,
{
    let before = decisions.drop_last();
    let states_before = states.drop_last();
    assert forall|i: int| 0 <= i < before.len() implies decided_at(
        states_before[i],
        states_before[i + 1],
        (#[trigger] before[i]).token,
        before[i].target,
        before[i].head,
        before[i].admitted,
        before[i].now,
    ) && before[i].now == now by {
        assert(before[i] == decisions[i]);
    }
    assert(decisions[decisions.len() - 1].now == now);
}

/// At one reading, a user new to the limiter has passed as often as they asked, up to the burst
/// size.
proof fn lemma_passed(states: Seq<IdLimiter>, decisions: Seq<Decision>, user: u64, now: nat)
    requires
        are_decided(states, decisions),
        forall|i: int| 0 <= i < decisions.len() ==> (#[trigger] decisions[i]).now == now,
        !limiter_keys(states[0]).contains(user),
        limiter_interval(states[0]) > 0,
        limiter_burst(states[0]) > 0,
    ensures
        admits(states.last(), user, now) <==> requests_of(decisions, user) < limiter_burst(
            states[0],
        ),
        admissions(checks_of(states, decisions), user) == if requests_of(decisions, user)
            < limiter_burst(states[0]) {
            requests_of(decisions, user)
        } else {
            limiter_burst(states[0])
        },
    decreases decisions.len(),
{
    let checks = checks_of(states, decisions);
    assert forall|i: int| 0 <= i < checks.len() implies checked_at(
        states[i],
        states[i + 1],
        (#[trigger] checks[i]).key,
        checks[i].admitted,
        checks[i].now,
    ) by {
        let decision = decisions[i];
    }
    assert forall|i: int| 0 <= i < checks.len() implies (#[trigger] checks[i]).now == now by {
        assert(decisions[i].now == now);
    }
    assert(is_history(states, checks));
    law_burst(states, checks, user, now);
    if decisions.len() > 0 {
        lemma_decided_before(states, decisions, now);
        lemma_passed(states.drop_last(), decisions.drop_last(), user, now);
        assert(checks_of(states.drop_last(), decisions.drop_last()) =~= checks.drop_last());
    }
}

/// Each user has one quota, over all channels and all of their tokens. Of the requests that come
/// in at one reading of the clock, as many of a user new to the limiter as the burst size says go
/// on to the checks that are left, and all that follow are over the limit. What other users ask
/// for does not count.
pub proof fn law_one_quota_per_user(states: Seq<IdLimiter>, decisions: Seq<Decision>, now: nat)
    requires
        are_decided(states, decisions),
        decisions.len() > 0,
        forall|i: int| 0 <= i < decisions.len() ==> (#[trigger] decisions[i]).now == now,
        !limiter_keys(states[0]).contains(decisions.last().token.user_id.value),
        limiter_interval(states[0]) > 0,
        limiter_burst(states[0]) > 0,
    ensures
        ({
            let last = decisions.last();
            let earlier = requests_of(decisions.drop_last(), last.token.user_id.value);
            if earlier < limiter_burst(states[0]) {
                admitted_with(last.token, last.target, last.head, last.admitted)
            } else {
                &&& last.admitted matches Err(rejection)
                &&& rejection@ == refusal_of(
                    states[decisions.len() - 1],
                    last.token.user_id.value,
                )
            }
        }),
{
    let user = decisions.last().token.user_id.value;
    lemma_decided_before(states, decisions, now);
    lemma_passed(states.drop_last(), decisions.drop_last(), user, now);
}

/// Every header value writes down the number `n`, and there is one.
pub open spec fn agree_on(values: Seq<HeaderValue>, n: u64) -> bool {
    &&& values.len() > 0
    &&& forall|i: int|
        0 <= i < values.len() ==> (#[trigger] values[i] matches HeaderValue::Text(text) && number(
            text@,
        ) == Some(n))
}

/// A length is read if and only if all headers write down that very number.
pub proof fn law_lengths_are_agreed_on(values: Vec<HeaderValue>, length: Option<u64>, n: u64)
    requires
        call_ensures(content_length, (&values,), length),
    ensures
        length == Some(n) <==> agree_on(values@, n),
{
    lemma_declared_length(values@, n);
}

proof fn lemma_declared_length(values: Seq<HeaderValue>, n: u64)
    ensures
        declared_length(values) == Some(n) <==> agree_on(values, n),
{
    if declared_length(values) == Some(n) {
        assert forall|i: int| 0 <= i < values.len() implies (#[trigger] values[i] matches
            HeaderValue::Text(text) && number(text@) == Some(n)) by {
            assert(header_number(values[i]) == header_number(values[0]));
        }
    }
    if agree_on(values, n) {
        assert(values[0] is Text);
        assert forall|i: int| 0 <= i < values.len() implies #[trigger] header_number(values[i])
            == header_number(values[0]) by {
            assert(values[i] is Text);
        }
    }
}

/// A request is at fault if its method is not that of the route, or else, where the route reads
/// a body of whatever kind, if its headers do not agree on a length or agree on more than 16384
/// bytes. Otherwise nothing is wrong with it.
pub proof fn law_faults_of_requests(target: Target, head: RequestHead, n: u64)
    ensures
        head.method != target.method ==> request_fault(target, head) == Some(
            RejectionView::MethodNotAllowed,
        ),
        head.method == target.method && target.body == BodyKind::Nothing ==> request_fault(
            target,
            head,
        ) is None,
        head.method == target.method && target.body != BodyKind::Nothing && agree_on(
            head.content_length@,
            n,
        ) ==> request_fault(target, head) == if n > 16384 {
            Some(RejectionView::PayloadTooLarge)
        } else {
            None
        },
        head.method == target.method && target.body != BodyKind::Nothing && (forall|m: u64|
            !agree_on(head.content_length@, m)) ==> request_fault(target, head) == Some(
            RejectionView::LengthRequired,
        ),
{
    lemma_declared_length(head.content_length@, n);
    if let Some(m) = declared_length(head.content_length@) {
        lemma_declared_length(head.content_length@, m);
    }
}

/// The method is that of the route, and where the route reads a body, of whatever kind, all
/// headers write down one length of no more than 16384 bytes.
pub open spec fn is_in_order(target: Target, head: RequestHead) -> bool {
    &&& head.method == target.method
    &&& target.body != BodyKind::Nothing ==> exists|n: u64|
        n <= 16384 && #[trigger] agree_on(head.content_length@, n)
}

/// Nothing is wrong with a request if and only if it is in order.
pub(crate) proof fn lemma_in_order(target: Target, head: RequestHead)
    ensures
        is_in_order(target, head) <==> request_fault(target, head) is None,
        request_fault(target, head) is Some ==> request_fault(target, head) == Some(
            if head.method != target.method {
                RejectionView::MethodNotAllowed
            } else if exists|n: u64| #[trigger] agree_on(head.content_length@, n) {
                RejectionView::PayloadTooLarge
            } else {
                RejectionView::LengthRequired
            },
        ),
{
    if let Some(m) = declared_length(head.content_length@) {
        lemma_declared_length(head.content_length@, m);
        law_faults_of_requests(target, head, m);
    }
    assert forall|n: u64| #[trigger] agree_on(head.content_length@, n) implies declared_length(
        head.content_length@,
    ) == Some(n) by {
        lemma_declared_length(head.content_length@, n);
    }
}

/// A request that is in order passes, and any other is refused: for its method, or else for a
/// length that is too great, or else for one that is missing.
pub proof fn law_requests_in_order_pass(
    target: Target,
    head: RequestHead,
    checked: Result<(), Rejection>,
)
    requires
        call_ensures(check_request, (&target, &head), checked),
    ensures
        match checked {
            Ok(()) => is_in_order(target, head),
            Err(rejection) => {
                &&& !is_in_order(target, head)
                &&& if head.method != target.method {
                    rejection is MethodNotAllowed
                } else if exists|n: u64| #[trigger] agree_on(head.content_length@, n) {
                    rejection is PayloadTooLarge
                } else {
                    rejection is LengthRequired
                }
            },
        },
{
    lemma_in_order(target, head);
}

/// A request to an open route is admitted if and only if it is in order. On any other route the
/// text of its authorization header goes on to be validated, all of it, whatever else is wrong
/// with the request; without such a text it is refused.
pub proof fn law_requests_enter(target: Target, head: RequestHead, entry: Entry)
    requires
        call_ensures(enter, (&target, &head), entry),
    ensures
        if target.guard == Guard::Open {
            match entry {
                Entry::Admitted => is_in_order(target, head),
                Entry::Validate(_) => false,
                Entry::Refused(rejection) => !is_in_order(target, head) && if head.method
                    != target.method {
                    rejection is MethodNotAllowed
                } else if exists|n: u64| #[trigger] agree_on(head.content_length@, n) {
                    rejection is PayloadTooLarge
                } else {
                    rejection is LengthRequired
                },
            }
        } else {
            match head.authorization {
                Some(HeaderValue::Text(text)) => {
                    &&& entry matches Entry::Validate(check)
                    &&& check.token@ == text@
                    &&& check.key@ == "among us"@
                },
                Some(HeaderValue::Opaque) => {
                    &&& entry matches Entry::Refused(Rejection::InvalidHeader { name })
                    &&& name@ == "authorization"@
                },
                None => {
                    &&& entry matches Entry::Refused(Rejection::MissingHeader { name })
                    &&& name@ == "authorization"@
                },
            }
        },
{
    lemma_in_order(target, head);
}

/// A token that was found valid passes as it is, and a request without one is unauthorized.
pub proof fn law_valid_tokens_pass(found: Option<Token>, verdict: Result<Token, Rejection>)
    requires
        call_ensures(validate_token, (found,), verdict),
    ensures
        match found {
            Some(token) => verdict matches Ok(passed) && passed.user_id == token.user_id,
            None => {
                &&& verdict matches Err(Rejection::Unauthorized { message })
                &&& message@ == "Invalid or expired token"@
            },
        },
        bad_token() == (RejectionView::Unauthorized { message: "Invalid or expired token"@ }),
{
}

/// Once the token has passed, a request that is in order is admitted with that token, and any
/// other is refused for its method or its length. What the guard refused stays refused.
pub proof fn law_after_the_guard(
    target: Target,
    head: RequestHead,
    verdict: Result<Token, Rejection>,
    admitted: Result<Token, Rejection>,
)
    requires
        call_ensures(after_guard, (&target, &head, verdict), admitted),
    ensures
        match verdict {
            Ok(token) => match admitted {
                Ok(passed) => passed.user_id == token.user_id && is_in_order(target, head),
                Err(rejection) => !is_in_order(target, head) && if head.method != target.method {
                    rejection is MethodNotAllowed
                } else if exists|n: u64| #[trigger] agree_on(head.content_length@, n) {
                    rejection is PayloadTooLarge
                } else {
                    rejection is LengthRequired
                },
            },
            Err(rejection) => admitted == Err::<Token, Rejection>(rejection),
        },
{
    lemma_in_order(target, head);
}

/// A valid token is admitted if and only if the request is in order; it is the token itself that
/// is admitted.
pub proof fn law_admission_with_a_token(
    token: Token,
    target: Target,
    head: RequestHead,
    admitted: Result<Token, Rejection>,
)
    requires
        admitted_with(token, target, head, admitted),
    ensures
        match admitted {
            Ok(passed) => passed.user_id == token.user_id && is_in_order(target, head),
            Err(rejection) => !is_in_order(target, head) && if head.method != target.method {
                rejection is MethodNotAllowed
            } else if exists|n: u64| #[trigger] agree_on(head.content_length@, n) {
                rejection is PayloadTooLarge
            } else {
                rejection is LengthRequired
            },
        },
{
    lemma_in_order(target, head);
}

/// On a route with a rate limit it is the token's own user who is checked and charged, whoever
/// that is. A request within the limit is admitted if and only if it is in order; one over the
/// limit is refused, in order or not, and changes nothing.
pub proof fn law_admission_within_the_limit(
    before: IdLimiter,
    after: IdLimiter,
    token: Token,
    target: Target,
    head: RequestHead,
    admitted: Result<Token, Rejection>,
    now: nat,
)
    requires
        decided_at(before, after, token, target, head, admitted, now),
    ensures
        checked_at(
            before,
            after,
            token.user_id.value,
            admits(before, token.user_id.value, now),
            now,
        ),
        admits(before, token.user_id.value, now) ==> match admitted {
            Ok(passed) => passed.user_id == token.user_id && is_in_order(target, head),
            Err(rejection) => !is_in_order(target, head) && if head.method != target.method {
                rejection is MethodNotAllowed
            } else if exists|n: u64| #[trigger] agree_on(head.content_length@, n) {
                rejection is PayloadTooLarge
            } else {
                rejection is LengthRequired
            },
        },
        !admits(before, token.user_id.value, now) ==> {
            &&& admitted matches Err(Rejection::BadRequest { message })
            &&& message@ == "Rate limit exceeded, try again at: "@ + instant_text(
                retry_at(before, token.user_id.value),
            )
            &&& limiter_arrivals(after) == limiter_arrivals(before)
        },
{
    lemma_in_order(target, head);
}

/// The rate limit is looked at only for a token that was found valid, and then for its own user.
pub proof fn law_limits_need_a_token(
    found: Option<Token>,
    limiter: &mut IdLimiter,
    verdict: Result<Token, Rejection>,
)
    requires
        call_ensures(needs_limit, (found, limiter), verdict),
    ensures
        match found {
            None => {
                &&& *final(limiter) == *old(limiter)
                &&& verdict matches Err(Rejection::Unauthorized { message })
                &&& message@ == "Invalid or expired token"@
            },
            Some(token) => {
                &&& exists|now: nat| #[trigger]
                    checked_at(
                        *old(limiter),
                        *final(limiter),
                        token.user_id.value,
                        verdict is Ok,
                        now,
                    )
                &&& match verdict {
                    Ok(passed) => passed.user_id == token.user_id,
                    Err(rejection) => {
                        &&& rejection matches Rejection::BadRequest { message }
                        &&& message@ == "Rate limit exceeded, try again at: "@ + instant_text(
                            retry_at(*old(limiter), token.user_id.value),
                        )
                    },
                }
            },
        },
{
}

/// What a request with a valid token comes to, within the rate limit or over it.
pub open spec fn is_outcome(
    limiter: IdLimiter,
    token: Token,
    target: Target,
    head: RequestHead,
    within: bool,
    admitted: Result<Token, Rejection>,
) -> bool {
    match admitted {
        Ok(passed) => {
            &&& within
            &&& is_in_order(target, head)
            &&& passed.user_id == token.user_id
        },
        Err(rejection) => if !within {
            &&& rejection matches Rejection::BadRequest { message }
            &&& message@ == "Rate limit exceeded, try again at: "@ + instant_text(
                retry_at(limiter, token.user_id.value),
            )
        } else if head.method != target.method {
            rejection is MethodNotAllowed
        } else {
            &&& !is_in_order(target, head)
            &&& if exists|n: u64| #[trigger] agree_on(head.content_length@, n) {
                rejection is PayloadTooLarge
            } else {
                rejection is LengthRequired
            }
        },
    }
}

/// A request whose token was looked at is admitted with that token if and only if the token was
/// found valid, its user is within the rate limit where the route has one, and the request is in
/// order. Otherwise it is refused for the first of these that fails. A route without a rate
/// limit, and a token that is not valid, leave the limiter alone.
pub proof fn law_what_follows_the_token(
    target: Target,
    head: RequestHead,
    found: Option<Token>,
    limiter: &mut IdLimiter,
    admitted: Result<Token, Rejection>,
)
    requires
        call_ensures(pass_token, (&target, &head, found, limiter), admitted),
    ensures
        found is None || target.guard != Guard::TokenAndLimit ==> *final(limiter) == *old(limiter),
        match found {
            None => {
                &&& admitted matches Err(Rejection::Unauthorized { message })
                &&& message@ == "Invalid or expired token"@
            },
            Some(token) => exists|within: bool|
                {
                    &&& target.guard == Guard::TokenAndLimit ==> exists|now: nat| #[trigger]
                        checked_at(
                            *old(limiter),
                            *final(limiter),
                            token.user_id.value,
                            within,
                            now,
                        )
                    &&& target.guard != Guard::TokenAndLimit ==> within
                    &&& #[trigger] is_outcome(
                        *old(limiter),
                        token,
                        target,
                        head,
                        within,
                        admitted,
                    )
                },
        },
{
    if let Some(token) = found {
        lemma_in_order(target, head);
        let user = token.user_id.value;
        if target.guard == Guard::TokenAndLimit {
            let now = choose|now: nat| #[trigger]
                decided_at(*old(limiter), *final(limiter), token, target, head, admitted, now);
            let within = admits(*old(limiter), user, now);
            assert(checked_at(*old(limiter), *final(limiter), user, within, now));
            assert(is_outcome(*old(limiter), token, target, head, within, admitted));
        } else {
            assert(is_outcome(*old(limiter), token, target, head, true, admitted));
        }
    }
}

} // verus!
