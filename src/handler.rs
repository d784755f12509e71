//! What one request asks for: the handler it goes to and, for a CPU profile,
//! the options it resolves to.
use vstd::prelude::*;
use crate::config::{cpu_profile_request, Config, CpuProfileRequest};
use crate::params::{query_pairs, resolve_i32};
use crate::routing::{dispatch, dispatch_spec, route_spec, Route, Support};

verus! {

/// The work one request calls for.
#[derive(Clone, Copy, Debug, PartialEq, Eq)]
pub enum Plan {
    NotFound,
    Heap,
    Cpu(CpuProfileRequest),
}

pub open spec fn opt_view(query: Option<&str>) -> Option<Seq<char>> {
    match query {
        Some(q) => Some(q@),
        None => None,
    }
}

/// The options a CPU profile request resolves to under `config`.
pub open spec fn cpu_request_spec(config: Config, query: Option<Seq<char>>) -> CpuProfileRequest {
    CpuProfileRequest {
        seconds: resolve_i32(query_pairs(query), "seconds"@, config.seconds_spec()),
        sampling: resolve_i32(query_pairs(query), "sampling"@, config.sampling_spec()),
    }
}

/// Routes a request and, for a CPU profile, resolves its options.
pub fn plan_request(config: &Config, support: Support, method: &str, path: &str, query: Option<&str>) -> (r: Plan)
    ensures
        match dispatch_spec(support, method@, path@) {
            Route::NotFound => r == Plan::NotFound,
            Route::Heap => r == Plan::Heap,
            Route::Cpu => r == Plan::Cpu(cpu_request_spec(*config, opt_view(query))),
        },
{
    match dispatch(support, method, path) {
        Route::NotFound => Plan::NotFound,
        Route::Heap => Plan::Heap,
        Route::Cpu => Plan::Cpu(cpu_profile_request(config, query)),
    }
}

/// A request for any path outside the routing table, or with any method but
/// `GET`, is not found, whatever this build supports.
pub proof fn lemma_unknown_request_not_found(support: Support, method: Seq<char>, path: Seq<char>)
    requires
        method != "GET"@ || (path != "/debug/pprof/allocs"@ && path != "/debug/pprof/heap"@ && path
            != "/debug/pprof/profile"@),
    ensures
        route_spec(method, path) == Route::NotFound,
        dispatch_spec(support, method, path) == Route::NotFound,
{
}

/// Where heap profiles are supported, a heap request reaches the heap
/// handler rather than the not-found reply, so inactive profiling is reported
/// by that handler's own error.
pub proof fn lemma_heap_request_is_served(support: Support)
    requires
        support.heap,
    ensures
        dispatch_spec(support, "GET"@, "/debug/pprof/heap"@) == Route::Heap,
        dispatch_spec(support, "GET"@, "/debug/pprof/allocs"@) == Route::Heap,
{
    reveal_strlit("/debug/pprof/heap");
    reveal_strlit("/debug/pprof/allocs");
    reveal_strlit("/debug/pprof/profile");
}

/// A parameter whose value does not read as an integer resolves to the
/// default: the resolver never fails.
pub proof fn lemma_malformed_parameter_defaults(
    pairs: Seq<(Seq<char>, Seq<char>)>,
    name: Seq<char>,
    default: i32,
)
    requires
        crate::params::lookup(pairs, name) matches Some(v) ==> crate::params::parse_i32_spec(v) is None,
    ensures
        resolve_i32(pairs, name, default) == default,
{
}

} // verus!
