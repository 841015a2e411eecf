//! The rate limit, which every user has for themself.

use crate::model::Token;
use crate::reply::{Rejection, RejectionView};
use governor::clock::{QuantaClock, QuantaInstant};
use governor::middleware::NoOpMiddleware;
use governor::state::keyed::DashMapStateStore;
use governor::{Quota, RateLimiter};
use std::num::NonZeroU32;
use vstd::prelude::*;

verus! {

/// How many messages a user may send per second, and at once.
pub const MESSAGES_PER_SECOND: u32 = 5;

/// The text of the answer to a user who is over the limit, before the time that is appended.
pub const LIMIT_MESSAGE: &'static str = "Rate limit exceeded, try again at: ";

/// A `governor::RateLimiter` with one state per user id, in a `DashMap`.
#[verifier::external_body]
pub struct IdLimiter {
    inner: RateLimiter<u64, DashMapStateStore<u64>, QuantaClock, NoOpMiddleware<QuantaInstant>>,
}

/// What the limiter's `DashMap` holds: for each user id the theoretical arrival time, in
/// nanoseconds since the limiter was made.
pub uninterp spec fn limiter_arrivals(limiter: IdLimiter) -> Map<u64, nat>;

/// The burst size of the quota that the limiter was made with.
pub uninterp spec fn limiter_burst(limiter: IdLimiter) -> nat;

/// The replenish interval, in nanoseconds, of the quota that the limiter was made with.
pub uninterp spec fn limiter_interval(limiter: IdLimiter) -> nat;

/// When the limiter was made, as its clock read in nanoseconds.
pub uninterp spec fn limiter_start(limiter: IdLimiter) -> nat;

/// The text that `Debug` writes of the `QuantaInstant` that is so many nanoseconds on the clock.
pub uninterp spec fn instant_text(instant: nat) -> Seq<char>;

/// Calls `governor::RateLimiter::keyed` with the quota that `Quota::per_second` and
/// `Quota::allow_burst` make of the two numbers. The new limiter holds no state yet; its quota
/// replenishes in equal parts of a second and has the given burst size.
#[verifier::external_body]
fn keyed(per_second: u32, burst: u32) -> (limiter: IdLimiter)
    requires
        per_second > 0,
        burst > 0,
    ensures
        limiter_arrivals(limiter).dom() == Set::<u64>::empty(),
        limiter_burst(limiter) == burst,
        limiter_interval(limiter) == 1_000_000_000nat / (per_second as nat),
{
    let per_second = NonZeroU32::new(per_second).unwrap();
    let burst = NonZeroU32::new(burst).unwrap();
    IdLimiter { inner: RateLimiter::keyed(Quota::per_second(per_second).allow_burst(burst)) }
}

/// The user ids that the limiter holds an arrival time for.
pub open spec fn limiter_keys(limiter: IdLimiter) -> Set<u64> {
    limiter_arrivals(limiter).dom()
}

/// The arrival time that a check of `key` at the reading `now` goes by. A key without one
/// starts an interval from now.
pub open spec fn arrival(limiter: IdLimiter, key: u64, now: nat) -> nat {
    if limiter_keys(limiter).contains(key) && limiter_arrivals(limiter)[key] > 0 {
        limiter_arrivals(limiter)[key]
    } else {
        now + limiter_interval(limiter)
    }
}

/// How far ahead of the clock an arrival time may be: a whole burst of intervals.
pub open spec fn window(limiter: IdLimiter) -> nat {
    let each = if limiter_interval(limiter) > 0 {
        limiter_interval(limiter)
    } else {
        1
    };
    each * limiter_burst(limiter)
}

/// The limiter lets `key` through when its clock reads `now`.
pub open spec fn admits(limiter: IdLimiter, key: u64, now: nat) -> bool {
    arrival(limiter, key, now) <= now + window(limiter)
}

/// One check of `key`, when the clock reads `now`, takes the limiter from `before` to `after`
/// and comes to `admitted`. Who is admitted is charged one interval; who is not, nothing.
pub open spec fn checked_at(
    before: IdLimiter,
    after: IdLimiter,
    key: u64,
    admitted: bool,
    now: nat,
) -> bool {
    let from = arrival(before, key, now);
    let start = if from > now {
        from
    } else {
        now
    };
    &&& admitted == admits(before, key, now)
    &&& limiter_burst(after) == limiter_burst(before)
    &&& limiter_interval(after) == limiter_interval(before)
    &&& limiter_start(after) == limiter_start(before)
    &&& limiter_arrivals(after) == if admitted {
        limiter_arrivals(before).insert(key, start + limiter_interval(before))
    } else {
        limiter_arrivals(before)
    }
}

/// The instant from which on the limiter lets `key` through, for a key that it refuses: when the
/// arrival time is no more than a window ahead.
pub open spec fn retry_at(limiter: IdLimiter, key: u64) -> nat {
    (limiter_start(limiter) + limiter_arrivals(limiter)[key] - window(limiter)) as nat
}

/// Calls `governor::RateLimiter::check_key`; a refusal is given as the text of its
/// `NotUntil::earliest_possible`. The outcome and the new arrival times are those of one check
/// of `key` at some reading of the limiter's clock, counted in nanoseconds from when the limiter
/// was made; the limiter keeps when that was. The text of a refusal tells the instant at which
/// the key's arrival time comes into the window. The burst size is not zero, as no quota's is.
/// Left unsaid is which reading it was, which the crate does not hand out. Times are taken to fit
/// in the 64 bits that the crate counts them in, which they do for centuries.
#[verifier::external_body]
fn check_key(limiter: &mut IdLimiter, key: u64) -> (outcome: Result<(), String>)
    ensures
        limiter_burst(*final(limiter)) > 0,
        exists|now: nat| #[trigger]
            checked_at(*old(limiter), *final(limiter), key, outcome is Ok, now),
        limiter_start(*final(limiter)) == limiter_start(*old(limiter)),
        outcome matches Err(at) ==> at@ == instant_text(retry_at(*old(limiter), key)),
{
    match limiter.inner.check_key(&key) {
        Ok(()) => Ok(()),
        Err(refusal) => Err(format!("{:?}", refusal.earliest_possible())),
    }
}

/// What a user is answered who may try again at the time that `at` tells.
pub open spec fn over_limit(at: Seq<char>) -> RejectionView {
    RejectionView::BadRequest { message: LIMIT_MESSAGE@ + at }
}

/// What a user is answered whom the limiter refuses.
pub open spec fn refusal_of(limiter: IdLimiter, user: u64) -> RejectionView {
    over_limit(instant_text(retry_at(limiter, user)))
}

/// A new limiter for sending messages.
pub fn message_create_limiter() -> (limiter: IdLimiter)
    ensures
        limiter_keys(limiter) == Set::<u64>::empty(),
        limiter_burst(limiter) == 5,
        limiter_interval(limiter) == 200_000_000,
{
    keyed(MESSAGES_PER_SECOND, MESSAGES_PER_SECOND)
}

/// What follows from the limiter's answer: the token passes, or the user is told when to try
/// again.
pub fn limit_verdict(token: Token, outcome: Result<(), String>) -> (verdict: Result<
    Token,
    Rejection,
>)
    ensures
        match outcome {
            Ok(()) => verdict == Ok::<Token, Rejection>(token),
            Err(at) => verdict matches Err(rejection) && rejection@ == over_limit(at@),
        },
{
    match outcome {
        Ok(()) => Ok(token),
        Err(at) => {
            let message = LIMIT_MESSAGE.to_owned().concat(at.as_str());
            Err(Rejection::BadRequest { message })
        },
    }
}

/// Checks the limiter once, with the id of the token's user, and goes by what it says.
pub fn validate_limit(token: Token, limiter: &mut IdLimiter) -> (verdict: Result<Token, Rejection>)
    ensures
        limiter_burst(*final(limiter)) > 0,
        exists|now: nat| #[trigger]
            checked_at(
                *old(limiter),
                *final(limiter),
                token.user_id.value,
                verdict is Ok,
                now,
            ),
        match verdict {
            Ok(passed) => passed == token,
            Err(rejection) => rejection@ == refusal_of(*old(limiter), token.user_id.value),
        },
{
    let outcome = check_key(limiter, token.user_id.value);
    let verdict = limit_verdict(token, outcome);
    proof {
        let now = choose|now: nat| #[trigger]
            checked_at(*old(limiter), *limiter, token.user_id.value, outcome is Ok, now);
        assert(checked_at(*old(limiter), *limiter, token.user_id.value, verdict is Ok, now));
    }
    verdict
}

/// One check that a limiter has made.
pub struct Check {
    pub key: u64,
    pub now: nat,
    pub admitted: bool,
}

/// `checks` have taken a limiter through `states`.
pub open spec fn is_history(states: Seq<IdLimiter>, checks: Seq<Check>) -> bool {
    &&& states.len() == checks.len() + 1
    &&& forall|i: int|
        0 <= i < checks.len() ==> checked_at(
            states[i],
            states[i + 1],
            (#[trigger] checks[i]).key,
            checks[i].admitted,
            checks[i].now,
        )
}

/// How many of `checks` have let `key` through.
pub open spec fn admissions(checks: Seq<Check>, key: u64) -> nat
    decreases checks.len(),
{
    if checks.len() == 0 {
        0
    } else {
        let check = checks.last();
        admissions(checks.drop_last(), key) + if check.key == key && check.admitted {
            1nat
        } else {
            0
        }
    }
}

/// A history without its last check is one too.
proof fn lemma_history_before(states: Seq<IdLimiter>, checks: Seq<Check>)
    requires
        is_history(states, checks),
        checks.len() > 0,
    ensures
        is_history(states.drop_last(), checks.drop_last()),
        checked_at(
            states[checks.len() - 1],
            states[checks.len() as int],
            checks.last().key,
            checks.last().admitted,
            checks.last().now,
        ),
        states.drop_last().last() == states[checks.len() - 1],
        states.drop_last()[0] == states[0],
{
    let before = checks.drop_last();
    assert forall|i: int| 0 <= i < before.len() implies checked_at(
        states.drop_last()[i],
        states.drop_last()[i + 1],
        (#[trigger] before[i]).key,
        before[i].admitted,
        before[i].now,
    ) by {
        assert(before[i] == checks[i]);
    }
    assert(checks[checks.len() - 1] == checks.last());
}

/// A check keeps the quota.
proof fn lemma_history_keeps_quota(states: Seq<IdLimiter>, checks: Seq<Check>)
    requires
        is_history(states, checks),
    ensures
        limiter_burst(states.last()) == limiter_burst(states[0]),
        limiter_interval(states.last()) == limiter_interval(states[0]),
    decreases checks.len(),
{
    if checks.len() > 0 {
        lemma_history_before(states, checks);
        lemma_history_keeps_quota(states.drop_last(), checks.drop_last());
    }
}

/// However often other users are checked, and whatever comes of it, a user is admitted at any
/// reading as they would have been without.
pub proof fn law_limit_is_per_user(
    states: Seq<IdLimiter>,
    checks: Seq<Check>,
    user: u64,
    later: nat,
)
    requires
        is_history(states, checks),
        forall|i: int| 0 <= i < checks.len() ==> (#[trigger] checks[i]).key != user,
    ensures
        admits(states.last(), user, later) == admits(states[0], user, later),
        arrival(states.last(), user, later) == arrival(states[0], user, later),
    decreases checks.len(),
{
    if checks.len() > 0 {
        lemma_history_before(states, checks);
        let before = checks.drop_last();
        assert forall|i: int| 0 <= i < before.len() implies (#[trigger] before[i]).key != user by {
            assert(before[i] == checks[i]);
        }
        assert(checks[checks.len() - 1].key != user);
        law_limit_is_per_user(states.drop_last(), before, user, later);
    }
}

/// The window has room for an interval.
proof fn lemma_window(limiter: IdLimiter)
    requires
        limiter_burst(limiter) > 0,
    ensures
        limiter_interval(limiter) <= window(limiter),
{
    assert(limiter_interval(limiter) <= window(limiter)) by (nonlinear_arith)
        requires
            limiter_burst(limiter) > 0,
            window(limiter) == (if limiter_interval(limiter) > 0 {
                limiter_interval(limiter)
            } else {
                1
            }) * limiter_burst(limiter),
    ;
}

/// A user whom the limiter does not know passes.
pub proof fn law_new_users_pass(limiter: IdLimiter, user: u64, now: nat)
    requires
        limiter_burst(limiter) > 0,
        !limiter_keys(limiter).contains(user),
    ensures
        admits(limiter, user, now),
{
    lemma_window(limiter);
}

/// A user who is refused is told the very instant from which on they pass, as long as they have
/// not been let through in between.
pub proof fn law_refusals_tell_the_time(limiter: IdLimiter, user: u64, now: nat, later: nat)
    requires
        limiter_burst(limiter) > 0,
        !admits(limiter, user, now),
    ensures
        limiter_keys(limiter).contains(user),
        limiter_start(limiter) + now < retry_at(limiter, user),
        admits(limiter, user, later) <==> retry_at(limiter, user) <= limiter_start(limiter) + later,
{
    if !limiter_keys(limiter).contains(user) {
        law_new_users_pass(limiter, user, now);
    } else if limiter_arrivals(limiter)[user] == 0 {
        lemma_window(limiter);
    }
}

proof fn lemma_multiples(times: nat, interval: nat)
    by (nonlinear_arith)
    ensures
        times == 0 ==> times * interval == 0,
        (times + 1) * interval == times * interval + interval,
        (times + 2) * interval == times * interval + interval + interval,
{
}

/// Where a user new to the limiter stands after `checks`, all made at the reading `now`.
proof fn lemma_arrival_in_burst(
    states: Seq<IdLimiter>,
    checks: Seq<Check>,
    user: u64,
    now: nat,
)
    requires
        is_history(states, checks),
        forall|i: int| 0 <= i < checks.len() ==> (#[trigger] checks[i]).now == now,
        !limiter_keys(states[0]).contains(user),
        limiter_interval(states[0]) > 0,
    ensures
        ({
            let passed = admissions(checks, user);
            let arrivals = limiter_arrivals(states.last());
            if passed == 0 {
                !limiter_keys(states.last()).contains(user)
            } else {
                &&& limiter_keys(states.last()).contains(user)
                &&& arrivals[user] == now + (passed + 1) * limiter_interval(states[0])
            }
        }),
    decreases checks.len(),
{
    if checks.len() > 0 {
        lemma_history_before(states, checks);
        let before = checks.drop_last();
        assert forall|i: int| 0 <= i < before.len() implies (#[trigger] before[i]).now == now by {
            assert(before[i] == checks[i]);
        }
        assert(checks[checks.len() - 1].now == now);
        lemma_arrival_in_burst(states.drop_last(), before, user, now);
        lemma_history_keeps_quota(states.drop_last(), before);
        let passed = admissions(before, user);
        let interval = limiter_interval(states[0]);
        lemma_multiples(passed, interval);
        assert(passed * interval >= 0) by (nonlinear_arith);
        assert(admissions(checks, user) == passed || admissions(checks, user) == passed + 1);
    }
}

/// At one reading of the clock, a user new to the limiter passes as often as the burst size says
/// and no more, whoever else is checked in between.
pub proof fn law_burst(states: Seq<IdLimiter>, checks: Seq<Check>, user: u64, now: nat)
    requires
        is_history(states, checks),
        forall|i: int| 0 <= i < checks.len() ==> (#[trigger] checks[i]).now == now,
        !limiter_keys(states[0]).contains(user),
        limiter_interval(states[0]) > 0,
        limiter_burst(states[0]) > 0,
    ensures
        admits(states.last(), user, now) <==> admissions(checks, user) < limiter_burst(states[0]),
        admissions(checks, user) <= limiter_burst(states[0]),
    decreases checks.len(),
{
    lemma_arrival_in_burst(states, checks, user, now);
    lemma_history_keeps_quota(states, checks);
    let passed = admissions(checks, user);
    let interval = limiter_interval(states[0]);
    let burst = limiter_burst(states[0]);
    if passed == 0 {
        law_new_users_pass(states.last(), user, now);
    } else {
        assert((passed + 1) * interval > 0) by (nonlinear_arith)
            requires
                interval > 0,
        ;
        assert((passed + 1) * interval <= interval * burst <==> passed + 1 <= burst)
            by (nonlinear_arith)
            requires
                interval > 0,
        ;
    }
    if checks.len() > 0 {
        lemma_history_before(states, checks);
        let before = checks.drop_last();
        assert forall|i: int| 0 <= i < before.len() implies (#[trigger] before[i]).now == now by {
            assert(before[i] == checks[i]);
        }
        assert(checks[checks.len() - 1].now == now);
        law_burst(states.drop_last(), before, user, now);
    }
}

/// How far a user who was new to the limiter, and came first, has moved their arrival time.
proof fn lemma_arrival_grows(states: Seq<IdLimiter>, checks: Seq<Check>, user: u64)
    requires
        is_history(states, checks),
        checks.len() > 0,
        checks[0].key == user,
        !limiter_keys(states[0]).contains(user),
        limiter_interval(states[0]) > 0,
        limiter_burst(states[0]) > 0,
    ensures
        limiter_keys(states.last()).contains(user),
        limiter_arrivals(states.last())[user] >= checks[0].now + (admissions(checks, user) + 1)
            * limiter_interval(states[0]),
    decreases checks.len(),
{
    lemma_history_before(states, checks);
    let before = checks.drop_last();
    let passed = admissions(before, user);
    let interval = limiter_interval(states[0]);
    lemma_history_keeps_quota(states.drop_last(), before);
    if checks.len() == 1 {
        law_new_users_pass(states[0], user, checks[0].now);
        assert(passed == 0);
    } else {
        lemma_arrival_grows(states.drop_last(), before, user);
    }
    lemma_multiples(passed, interval);
    assert(passed * interval >= 0) by (nonlinear_arith);
    assert(admissions(checks, user) == passed || admissions(checks, user) == passed + 1);
}

/// In the long run a user passes once in an interval. Whenever one passes who was new to the
/// limiter, the intervals for all the times that they have passed fit into the time since they
/// came and one burst.
pub proof fn law_rate(states: Seq<IdLimiter>, checks: Seq<Check>, user: u64)
    requires
        is_history(states, checks),
        checks.len() > 0,
        checks[0].key == user,
        !limiter_keys(states[0]).contains(user),
        limiter_interval(states[0]) > 0,
        limiter_burst(states[0]) > 0,
        checks.last().key == user,
        checks.last().admitted,
    ensures
        checks[0].now + admissions(checks, user) * limiter_interval(states[0])
            <= checks.last().now + limiter_burst(states[0]) * limiter_interval(states[0]),
{
    lemma_history_before(states, checks);
    let before = checks.drop_last();
    let passed = admissions(before, user);
    let interval = limiter_interval(states[0]);
    let burst = limiter_burst(states[0]);
    lemma_history_keeps_quota(states.drop_last(), before);
    assert(interval * burst == burst * interval) by (nonlinear_arith);
    lemma_multiples(passed, interval);
    assert(passed * interval >= 0) by (nonlinear_arith);
    assert(admissions(checks, user) == passed + 1);
    if checks.len() == 1 {
        assert(passed == 0);
        assert(burst * interval >= interval) by (nonlinear_arith)
            requires
                burst > 0,
        ;
    } else {
        lemma_arrival_grows(states.drop_last(), before, user);
    }
}

/// A user who is over the limit is told so with the instant from which on they pass, which the
/// limiter has from when it was made, the user's arrival time and the intervals of a burst.
pub proof fn law_refusals_are_bad_requests(limiter: IdLimiter, user: u64)
    requires
        limiter_interval(limiter) > 0,
        limiter_arrivals(limiter)[user] >= limiter_interval(limiter) * limiter_burst(limiter),
    ensures
        refusal_of(limiter, user) == (RejectionView::BadRequest {
            message: "Rate limit exceeded, try again at: "@ + instant_text(
                (limiter_start(limiter) + limiter_arrivals(limiter)[user] - limiter_interval(
                    limiter,
                ) * limiter_burst(limiter)) as nat,
            ),
        }),
{
}

/// What the limiter answers is what the user gets: their own token if they pass, and otherwise
/// the time that the limiter told, whatever it is.
pub proof fn law_the_limiter_has_its_way(
    token: Token,
    outcome: Result<(), String>,
    verdict: Result<Token, Rejection>,
)
    requires
        call_ensures(limit_verdict, (token, outcome), verdict),
    ensures
        match outcome {
            Ok(()) => verdict matches Ok(passed) && passed.user_id == token.user_id,
            Err(at) => {
                &&& verdict matches Err(Rejection::BadRequest { message })
                &&& message@ == "Rate limit exceeded, try again at: "@ + at@
            },
        },
{
}

/// A new limiter knows nobody, and lets each user send five messages at once and five in a
/// second.
pub proof fn law_message_limit(limiter: IdLimiter)
    requires
        call_ensures(message_create_limiter, (), limiter),
    ensures
        forall|user: u64| !limiter_keys(limiter).contains(user),
        limiter_burst(limiter) == 5,
        5 * limiter_interval(limiter) == 1_000_000_000,
{
}

/// The limiter is asked about the token's own user, whoever that is, and has its way: the token
/// passes if and only if the limiter lets the user through at the reading of its clock. A user
/// who is refused is told when to try again and is charged nothing.
pub proof fn law_users_are_limited(
    token: Token,
    limiter: &mut IdLimiter,
    verdict: Result<Token, Rejection>,
)
    requires
        call_ensures(validate_limit, (token, limiter), verdict),
    ensures
        exists|now: nat| {
            &&& verdict is Ok <==> admits(*old(limiter), token.user_id.value, now)
            &&& #[trigger] checked_at(
                *old(limiter),
                *final(limiter),
                token.user_id.value,
                verdict is Ok,
                now,
            )
        },
        match verdict {
            Ok(passed) => passed.user_id == token.user_id,
            Err(rejection) => {
                &&& rejection matches Rejection::BadRequest { message }
                &&& message@ == "Rate limit exceeded, try again at: "@ + instant_text(
                    retry_at(*old(limiter), token.user_id.value),
                )
                &&& limiter_arrivals(*final(limiter)) == limiter_arrivals(*old(limiter))
            },
        },
{
}

} // verus!
