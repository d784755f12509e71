//! Heap profiles: a snapshot of the allocator's sampled allocations, served
//! only once heap profiling has been activated.
use vstd::prelude::*;
use crate::routing::ProfileError;

verus! {

#[verifier::external_type_specification]
#[verifier::external_body]
pub struct ExJemallocProfCtl(jemalloc_pprof::JemallocProfCtl);

#[verifier::external_type_specification]
#[verifier::external_body]
pub struct ExAnyhowError(anyhow::Error);

/// Relies on `JemallocProfCtl::activated`: whether allocation profiling is active.
pub assume_specification[ jemalloc_pprof::JemallocProfCtl::activated ](
    ctl: &jemalloc_pprof::JemallocProfCtl,
) -> bool;

/// Relies on `JemallocProfCtl::dump_pprof`: a heap snapshot, gzipped pprof.
pub assume_specification[ jemalloc_pprof::JemallocProfCtl::dump_pprof ](
    ctl: &mut jemalloc_pprof::JemallocProfCtl,
) -> anyhow::Result<Vec<u8>>;

/// The heap snapshot, given whether profiling is active: inactive profiling
/// is reported as such and no dump is attempted.
pub fn heap_snapshot(ctl: &mut jemalloc_pprof::JemallocProfCtl, activated: bool) -> (r: Result<
    Vec<u8>,
    ProfileError,
>)
    ensures
        !activated ==> r == Err::<Vec<u8>, ProfileError>(ProfileError::HeapNotActivated),
        activated ==> (r matches Err(e) ==> e == ProfileError::HeapDump),
{
    if !activated {
        return Err(ProfileError::HeapNotActivated);
    }
    match ctl.dump_pprof() {
        Ok(bytes) => Ok(bytes),
        Err(_) => Err(ProfileError::HeapDump),
    }
}

/// The heap snapshot of the process. Without a profiling handle (the
/// allocator was not started with profiling) heap profiling counts as never
/// activated.
pub fn memory_profile(ctl: Option<&mut jemalloc_pprof::JemallocProfCtl>) -> (r: Result<
    Vec<u8>,
    ProfileError,
>)
    ensures
        ctl is None ==> r == Err::<Vec<u8>, ProfileError>(ProfileError::HeapNotActivated),
        r matches Err(e) ==> (e == ProfileError::HeapNotActivated || e == ProfileError::HeapDump),
{
    match ctl {
        None => Err(ProfileError::HeapNotActivated),
        Some(c) => {
            let activated = c.activated();
            heap_snapshot(c, activated)
        },
    }
}

} // verus!
