//! Process-wide profiling configuration and the resolved options of one CPU
//! profile request.
use vstd::prelude::*;
use crate::params::{get_params, parse_i32_params, query_pairs, resolve_i32};

verus! {

/// Seconds a CPU profile runs when neither the request nor the configuration says.
pub const PPROF_DEFAULT_SECONDS: i32 = 30;

/// Sampling frequency (Hz) when neither the request nor the configuration says.
pub const PPROF_DEFAULT_SAMPLING: i32 = 99;

/// Customizes the profiling endpoint; every `None` falls back to a built-in default.
#[derive(Default, Clone, Debug)]
pub struct Config<'a> {
    /// Substrings of shared-library names whose frames are left out of CPU
    /// profiles. Defaults to `libc`, `libgcc`, `pthread` and `vdso`.
    pub pprof_blocklist: Option<&'a [&'a str]>,
    /// Defaults to `PPROF_DEFAULT_SECONDS`.
    pub pprof_default_seconds: Option<i32>,
    /// Defaults to `PPROF_DEFAULT_SAMPLING`.
    pub pprof_default_sampling: Option<i32>,
}

/// The built-in blocklist, as character sequences.
pub open spec fn default_blocklist_spec() -> Seq<Seq<char>> {
    seq!["libc"@, "libgcc"@, "pthread"@, "vdso"@]
}

pub open spec fn strs_view(v: Seq<&str>) -> Seq<Seq<char>> {
    v.map_values(|s: &str| s@)
}

/// The built-in blocklist of system libraries whose frames say little.
pub fn default_blocklist() -> (r: Vec<&'static str>)
    ensures
        strs_view(r@) == default_blocklist_spec(),
{
    let r = vec!["libc", "libgcc", "pthread", "vdso"];
    proof {
        assert(strs_view(r@) =~= default_blocklist_spec());
    }
    r
}

impl<'a> Config<'a> {
    pub open spec fn seconds_spec(&self) -> i32 {
        match self.pprof_default_seconds {
            Some(s) => s,
            None => PPROF_DEFAULT_SECONDS,
        }
    }

    pub open spec fn sampling_spec(&self) -> i32 {
        match self.pprof_default_sampling {
            Some(s) => s,
            None => PPROF_DEFAULT_SAMPLING,
        }
    }

    pub open spec fn blocklist_spec(&self) -> Seq<Seq<char>> {
        match self.pprof_blocklist {
            Some(b) => strs_view(b@),
            None => default_blocklist_spec(),
        }
    }

    /// The configured default duration of a CPU profile, in seconds.
    pub fn default_seconds(&self) -> (r: i32)
        ensures
            r == self.seconds_spec(),
    {
        match self.pprof_default_seconds {
            Some(s) => s,
            None => PPROF_DEFAULT_SECONDS,
        }
    }

    /// The configured default sampling frequency, in Hz.
    pub fn default_sampling(&self) -> (r: i32)
        ensures
            r == self.sampling_spec(),
    {
        match self.pprof_default_sampling {
            Some(s) => s,
            None => PPROF_DEFAULT_SAMPLING,
        }
    }

    /// The configured blocklist, or the built-in one.
    pub fn blocklist(&self) -> (r: Vec<&'a str>)
        ensures
            strs_view(r@) == self.blocklist_spec(),
    {
        match self.pprof_blocklist {
            Some(b) => {
                let mut r: Vec<&'a str> = Vec::new();
                let mut i: usize = 0;
                while i < b.len()
                    invariant
                        i <= b@.len(),
                        strs_view(r@) =~= strs_view(b@.take(i as int)),
                    decreases b@.len() - i,
                {
                    let ghost before = r@;
                    r.push(b[i]);
                    i = i + 1;
                    proof {
                        assert(b@.take(i as int) =~= b@.take(i - 1).push(b@[i - 1]));
                        assert(r@ =~= before.push(b@[i - 1]));
                        assert(strs_view(r@) =~= strs_view(before).push(b@[i - 1]@));
                        assert(strs_view(b@.take(i as int)) =~= strs_view(b@.take(i - 1)).push(
                            b@[i - 1]@,
                        ));
                    }
                }
                proof {
                    assert(b@.take(i as int) =~= b@);
                }
                r
            },
            None => default_blocklist(),
        }
    }
}

/// The duration and sampling frequency that one CPU profile request asks for.
#[derive(Clone, Copy, Debug, PartialEq, Eq)]
pub struct CpuProfileRequest {
    pub seconds: i32,
    pub sampling: i32,
}

/// Resolves `seconds` and `sampling` from the request's query, each falling
/// back to the configured default when absent or not an integer.
pub fn cpu_profile_request(config: &Config, query: Option<&str>) -> (r: CpuProfileRequest)
    ensures
        r.seconds == resolve_i32(
            query_pairs(
                match query {
                    Some(q) => Some(q@),
                    None => None,
                },
            ),
            "seconds"@,
            config.seconds_spec(),
        ),
        r.sampling == resolve_i32(
            query_pairs(
                match query {
                    Some(q) => Some(q@),
                    None => None,
                },
            ),
            "sampling"@,
            config.sampling_spec(),
        ),
{
    let params = get_params(query);
    let seconds = parse_i32_params(&params, "seconds", config.default_seconds());
    let sampling = parse_i32_params(&params, "sampling", config.default_sampling());
    CpuProfileRequest { seconds, sampling }
}

} // verus!
