use pprof_hyper_server::config::Config;
use pprof_hyper_server::config::CpuProfileRequest;
use pprof_hyper_server::handler::{plan_request, Plan};
use pprof_hyper_server::heap::memory_profile;
use pprof_hyper_server::routing::{dispatch, not_found, profile_reply, route, ProfileError, Route, Support};

const ALL: Support = Support { cpu: true, heap: true };

#[test]
fn routing_table() {
    assert_eq!(route("GET", "/debug/pprof/heap"), Route::Heap);
    assert_eq!(route("GET", "/debug/pprof/allocs"), Route::Heap);
    assert_eq!(route("GET", "/debug/pprof/profile"), Route::Cpu);
    assert_eq!(route("GET", "/debug/pprof/unknown"), Route::NotFound);
    assert_eq!(route("GET", "/debug/pprof/heap/"), Route::NotFound);
    assert_eq!(route("POST", "/debug/pprof/heap"), Route::NotFound);
    assert_eq!(route("get", "/debug/pprof/profile"), Route::NotFound);
    assert_eq!(route("GET", ""), Route::NotFound);
}

#[test]
fn unsupported_profiles_are_not_found() {
    let none = Support { cpu: false, heap: false };
    assert_eq!(dispatch(none, "GET", "/debug/pprof/heap"), Route::NotFound);
    assert_eq!(dispatch(none, "GET", "/debug/pprof/profile"), Route::NotFound);
    assert_eq!(dispatch(ALL, "GET", "/debug/pprof/profile"), Route::Cpu);
}

#[test]
fn unknown_path_gets_not_found_body() {
    assert_eq!(plan_request(&Config::default(), ALL, "GET", "/debug/pprof/unknown", None), Plan::NotFound);
    let r = not_found();
    assert_eq!(r.status, 404);
    assert_eq!(r.body, b"Not Found".to_vec());
}

#[test]
fn plan_resolves_cpu_options() {
    let p = plan_request(&Config::default(), ALL, "GET", "/debug/pprof/profile", Some("seconds=abc&sampling=100"));
    assert_eq!(p, Plan::Cpu(CpuProfileRequest { seconds: 30, sampling: 100 }));
    assert_eq!(plan_request(&Config::default(), ALL, "GET", "/debug/pprof/allocs", Some("seconds=1")), Plan::Heap);
}

#[test]
fn heap_without_activation_is_a_descriptive_error() {
    assert_eq!(memory_profile(None), Err(ProfileError::HeapNotActivated));
    let r = profile_reply(memory_profile(None));
    assert_eq!(r.status, 500);
    assert_ne!(r.status, 404);
    assert_eq!(String::from_utf8(r.body).unwrap(), "heap profiling not activated");
}

#[test]
fn profile_reply_passes_bytes_on() {
    let r = profile_reply(Ok(vec![1, 2, 3]));
    assert_eq!(r.status, 200);
    assert_eq!(r.body, vec![1, 2, 3]);
    let r = profile_reply(Err(ProfileError::InvalidDuration));
    assert_eq!(r.status, 500);
    assert_eq!(r.body, ProfileError::InvalidDuration.message().into_bytes());
}
