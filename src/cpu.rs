//! CPU profiles: a sampling-profiler session that runs for the requested
//! number of seconds, then is stopped and serialized in the pprof format.
use vstd::prelude::*;
use crate::config::CpuProfileRequest;
use crate::routing::ProfileError;

verus! {

#[verifier::external_type_specification]
#[verifier::external_body]
pub struct ExProfilerGuard<'a>(pprof::ProfilerGuard<'a>);

#[verifier::external_type_specification]
#[verifier::external_body]
pub struct ExReport(pprof::Report);

#[verifier::external_type_specification]
#[verifier::external_body]
pub struct ExProfile(pprof::protos::Profile);

#[verifier::external_type_specification]
#[verifier::external_body]
pub struct ExPprofError(pprof::Error);

/// Relies on `pprof::ProfilerGuardBuilder::build`, configured with a frequency
/// and a blocklist: it starts the process-wide sampling profiler, which runs
/// until the returned guard is dropped. A zero frequency divides by zero there.
#[verifier::external_body]
fn start_profiler(frequency: i32, blocklist: &[&str]) -> (r: Result<pprof::ProfilerGuard<'static>, pprof::Error>)
    requires
        frequency != 0,
{
    pprof::ProfilerGuardBuilder::default().frequency(frequency).blocklist(blocklist).build()
}

/// Relies on `pprof::ReportBuilder::build`, reached through
/// `ProfilerGuard::report`: the samples gathered so far, aggregated by stack.
#[verifier::external_body]
fn build_report(guard: &pprof::ProfilerGuard<'static>) -> (r: Result<pprof::Report, pprof::Error>) {
    guard.report().build()
}

/// Relies on `pprof::Report::pprof`: the report as a pprof profile message.
#[verifier::external_body]
fn report_profile(report: &pprof::Report) -> (r: Result<pprof::protos::Profile, pprof::Error>) {
    report.pprof()
}

/// Relies on `prost::Message::encode_to_vec`: the protobuf encoding of the
/// profile, which cannot fail when written to a growable buffer.
#[verifier::external_body]
fn encode_profile(profile: &pprof::protos::Profile) -> (r: Vec<u8>) {
    pprof::protos::Message::encode_to_vec(profile)
}

/// A running CPU profile, with the number of seconds it is to run.
pub struct CpuSession {
    guard: pprof::ProfilerGuard<'static>,
    seconds: u64,
}

impl CpuSession {
    pub closed spec fn duration(&self) -> nat {
        self.seconds as nat
    }

    /// How long the session is to gather samples before it is finished.
    pub fn seconds(&self) -> (r: u64)
        ensures
            r == self.duration(),
    {
        self.seconds
    }
}

/// Checks the request and starts sampling at its frequency, leaving out frames
/// of the blocklisted libraries. A zero frequency or a negative duration is
/// refused before any sampling starts.
pub fn start_cpu_profile(request: &CpuProfileRequest, blocklist: &[&str]) -> (r: Result<CpuSession, ProfileError>)
    ensures
        request.sampling == 0 <==> r == Err::<CpuSession, ProfileError>(ProfileError::InvalidSampling),
        (request.sampling != 0 && request.seconds < 0) <==> r == Err::<CpuSession, ProfileError>(
            ProfileError::InvalidDuration,
        ),
        request.sampling != 0 && request.seconds >= 0 ==> match r {
            Ok(session) => session.duration() == request.seconds,
            Err(e) => e == ProfileError::ProfilerStart,
        },
{
    if request.sampling == 0 {
        return Err(ProfileError::InvalidSampling);
    }
    if request.seconds < 0 {
        return Err(ProfileError::InvalidDuration);
    }
    match start_profiler(request.sampling, blocklist) {
        Ok(guard) => Ok(CpuSession { guard, seconds: request.seconds as u64 }),
        Err(_) => Err(ProfileError::ProfilerStart),
    }
}

/// Stops the session and returns its samples in the pprof wire format. The
/// session is consumed: the profiler stops when this returns.
pub fn finish_cpu_profile(session: CpuSession) -> (r: Result<Vec<u8>, ProfileError>)
    ensures
        r matches Err(e) ==> e == ProfileError::ReportBuild,
{
    let report = match build_report(&session.guard) {
        Ok(report) => report,
        Err(_) => return Err(ProfileError::ReportBuild),
    };
    match report_profile(&report) {
        Ok(profile) => Ok(encode_profile(&profile)),
        Err(_) => Err(ProfileError::ReportBuild),
    }
}

} // verus!
