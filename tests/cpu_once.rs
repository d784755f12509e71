use pprof_hyper_server::config::Config;
use pprof_hyper_server::cpu::{finish_cpu_profile, start_cpu_profile};
use pprof_hyper_server::handler::{plan_request, Plan};
use pprof_hyper_server::routing::{profile_reply, ProfileError, Support};

#[test]
fn one_second_profile_returns_bytes() {
    let config = Config::default();
    let support = Support { cpu: true, heap: true };
    let plan = plan_request(&config, support, "GET", "/debug/pprof/profile", Some("seconds=1&sampling=100"));
    let request = match plan {
        Plan::Cpu(r) => r,
        other => panic!("unexpected plan {other:?}"),
    };
    assert_eq!((request.seconds, request.sampling), (1, 100));
    let blocklist = config.blocklist();
    let session = start_cpu_profile(&request, &blocklist).unwrap();
    assert_eq!(session.seconds(), 1);
    let started = std::time::Instant::now();
    futures_lite::future::block_on(async_io::Timer::after(std::time::Duration::from_secs(session.seconds())));
    assert!(started.elapsed() >= std::time::Duration::from_secs(1));
    let reply = profile_reply(finish_cpu_profile(session));
    assert_eq!(reply.status, 200);
    assert!(!reply.body.is_empty());
}

#[test]
fn invalid_cpu_options_are_refused() {
    let blocklist: Vec<&str> = Vec::new();
    let r = pprof_hyper_server::config::CpuProfileRequest { seconds: 1, sampling: 0 };
    assert!(matches!(start_cpu_profile(&r, &blocklist), Err(ProfileError::InvalidSampling)));
    let r = pprof_hyper_server::config::CpuProfileRequest { seconds: -1, sampling: 100 };
    assert!(matches!(start_cpu_profile(&r, &blocklist), Err(ProfileError::InvalidDuration)));
}
