//! What scripts of other origins may ask for.

use crate::routes::Method;
use vstd::prelude::*;

verus! {

/// What the server lets scripts of other origins do.
#[derive(Debug, PartialEq, Eq)]
pub struct CorsPolicy {
    /// Scripts of any origin may ask.
    pub any_origin: bool,
    pub methods: Vec<Method>,
    /// The request headers that a script may set.
    pub headers: Vec<&'static str>,
    /// For how many seconds a browser may keep the policy in mind.
    pub max_age: u64,
}

/// The policy for all routes.
pub fn cors_policy() -> (policy: CorsPolicy)
    ensures
        policy.any_origin,
        policy.methods@ == seq![
            Method::Get,
            Method::Post,
            Method::Delete,
            Method::Options,
            Method::Put,
            Method::Patch,
        ],
        policy.headers@ == seq!["content-type", "origin", "authorization", "cache-control"],
        policy.max_age == 3600,
{
    CorsPolicy {
        any_origin: true,
        methods: vec![
            Method::Get,
            Method::Post,
            Method::Delete,
            Method::Options,
            Method::Put,
            Method::Patch,
        ],
        headers: vec!["content-type", "origin", "authorization", "cache-control"],
        max_age: 3600,
    }
}

/// Scripts of any origin may ask with the methods that the server knows of and with the headers
/// that its clients send, and a browser may keep that in mind for an hour.
pub proof fn law_cors_policy(policy: CorsPolicy)
    requires
        call_ensures(cors_policy, (), policy),
    ensures
        policy.any_origin,
        forall|method: Method| #[trigger]
            policy.methods@.contains(method) <==> method != Method::Other,
        policy.methods@.no_duplicates(),
        policy.headers@.len() == 4,
        policy.headers@.contains("content-type"),
        policy.headers@.contains("origin"),
        policy.headers@.contains("authorization"),
        policy.headers@.contains("cache-control"),
        policy.max_age == 60 * 60,
{
    assert(policy.methods@[0] == Method::Get);
    assert(policy.methods@[1] == Method::Post);
    assert(policy.methods@[2] == Method::Delete);
    assert(policy.methods@[3] == Method::Options);
    assert(policy.methods@[4] == Method::Put);
    assert(policy.methods@[5] == Method::Patch);
    assert(policy.headers@[0] == "content-type");
    assert(policy.headers@[1] == "origin");
    assert(policy.headers@[2] == "authorization");
    assert(policy.headers@[3] == "cache-control");
}

} // verus!
