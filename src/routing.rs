//! Mapping a request's method and path to a handler, and the replies that
//! the handlers' outcomes turn into.
use vstd::prelude::*;
use vstd::utf8::encode_utf8;

verus! {

/// Which handler serves a request.
#[derive(Clone, Copy, Debug, PartialEq, Eq, Structural)]
pub enum Route {
    Heap,
    Cpu,
    NotFound,
}

/// Which kinds of profile this build of the process can produce.
#[derive(Clone, Copy, Debug, PartialEq, Eq, Structural)]
pub struct Support {
    pub cpu: bool,
    pub heap: bool,
}

/// The routing table: exact method and path, nothing normalized.
pub open spec fn route_spec(method: Seq<char>, path: Seq<char>) -> Route {
    if method == "GET"@ && (path == "/debug/pprof/allocs"@ || path == "/debug/pprof/heap"@) {
        Route::Heap
    } else if method == "GET"@ && path == "/debug/pprof/profile"@ {
        Route::Cpu
    } else {
        Route::NotFound
    }
}

/// The route, where a profile kind this build cannot produce is not found.
pub open spec fn dispatch_spec(support: Support, method: Seq<char>, path: Seq<char>) -> Route {
    match route_spec(method, path) {
        Route::Heap => if support.heap {
            Route::Heap
        } else {
            Route::NotFound
        },
        Route::Cpu => if support.cpu {
            Route::Cpu
        } else {
            Route::NotFound
        },
        Route::NotFound => Route::NotFound,
    }
}

/// Picks the handler for a request by its method and path.
pub fn route(method: &str, path: &str) -> (r: Route)
    ensures
        r == route_spec(method@, path@),
{
    let m = method.to_owned();
    let p = path.to_owned();
    if m == "GET".to_owned() {
        if p == "/debug/pprof/allocs".to_owned() || p == "/debug/pprof/heap".to_owned() {
            return Route::Heap;
        }
        if p == "/debug/pprof/profile".to_owned() {
            return Route::Cpu;
        }
    }
    Route::NotFound
}

/// Picks the handler for a request, taking into account what this build supports.
pub fn dispatch(support: Support, method: &str, path: &str) -> (r: Route)
    ensures
        r == dispatch_spec(support, method@, path@),
{
    match route(method, path) {
        Route::Heap => if support.heap {
            Route::Heap
        } else {
            Route::NotFound
        },
        Route::Cpu => if support.cpu {
            Route::Cpu
        } else {
            Route::NotFound
        },
        Route::NotFound => Route::NotFound,
    }
}

/// Why a profile could not be produced.
#[derive(Clone, Copy, Debug, PartialEq, Eq, Structural)]
pub enum ProfileError {
    /// Heap profiling was never activated in this process.
    HeapNotActivated,
    /// The allocator could not dump a heap profile.
    HeapDump,
    /// A sampling frequency of zero was asked for.
    InvalidSampling,
    /// A negative duration was asked for.
    InvalidDuration,
    /// The sampling profiler could not be started.
    ProfilerStart,
    /// The sampling profiler's report could not be built.
    ReportBuild,
}

pub open spec fn error_message_spec(e: ProfileError) -> Seq<char> {
    match e {
        ProfileError::HeapNotActivated => "heap profiling not activated"@,
        ProfileError::HeapDump => "heap profile dump failed"@,
        ProfileError::InvalidSampling => "sampling frequency must not be zero"@,
        ProfileError::InvalidDuration => "profile duration must not be negative"@,
        ProfileError::ProfilerStart => "cpu profiler could not be started"@,
        ProfileError::ReportBuild => "cpu profile report could not be built"@,
    }
}

impl ProfileError {
    /// A sentence that tells an operator what went wrong.
    pub fn message(&self) -> (r: String)
        ensures
            r@ == error_message_spec(*self),
    {
        match self {
            ProfileError::HeapNotActivated => "heap profiling not activated".to_owned(),
            ProfileError::HeapDump => "heap profile dump failed".to_owned(),
            ProfileError::InvalidSampling => "sampling frequency must not be zero".to_owned(),
            ProfileError::InvalidDuration => "profile duration must not be negative".to_owned(),
            ProfileError::ProfilerStart => "cpu profiler could not be started".to_owned(),
            ProfileError::ReportBuild => "cpu profile report could not be built".to_owned(),
        }
    }
}

pub const STATUS_OK: u16 = 200;

pub const STATUS_NOT_FOUND: u16 = 404;

pub const STATUS_INTERNAL_ERROR: u16 = 500;

/// An HTTP response: its status code and body.
pub struct Reply {
    pub status: u16,
    pub body: Vec<u8>,
}

pub open spec fn not_found_body() -> Seq<u8> {
    encode_utf8("Not Found"@)
}

/// The reply to a request that no handler serves.
pub fn not_found() -> (r: Reply)
    ensures
        r.status == STATUS_NOT_FOUND,
        r.body@ == not_found_body(),
{
    Reply { status: STATUS_NOT_FOUND, body: "Not Found".as_bytes_vec() }
}

/// The reply to a profile request: the profile with a success status, or the
/// error's message with a server-error status.
pub fn profile_reply(outcome: Result<Vec<u8>, ProfileError>) -> (r: Reply)
    ensures
        match outcome {
            Ok(bytes) => r.status == STATUS_OK && r.body@ == bytes@,
            Err(e) => r.status == STATUS_INTERNAL_ERROR && r.body@ == encode_utf8(
                error_message_spec(e),
            ),
        },
{
    match outcome {
        Ok(bytes) => Reply { status: STATUS_OK, body: bytes },
        Err(e) => Reply { status: STATUS_INTERNAL_ERROR, body: e.message().as_str().as_bytes_vec() },
    }
}

} // verus!
