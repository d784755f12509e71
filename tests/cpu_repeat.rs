use pprof_hyper_server::config::{Config, CpuProfileRequest};
use pprof_hyper_server::cpu::{finish_cpu_profile, start_cpu_profile};
use pprof_hyper_server::routing::ProfileError;

#[test]
fn repeated_profiles_are_fresh_and_released() {
    let blocklist = Config::default().blocklist();
    let request = CpuProfileRequest { seconds: 0, sampling: 100 };
    for _ in 0..3 {
        let session = start_cpu_profile(&request, &blocklist).unwrap();
        // a second session cannot start while one runs
        assert!(matches!(start_cpu_profile(&request, &blocklist), Err(ProfileError::ProfilerStart)));
        let bytes = finish_cpu_profile(session).unwrap();
        assert!(!bytes.is_empty());
    }
}
