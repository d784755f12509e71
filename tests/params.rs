use pprof_hyper_server::config::{cpu_profile_request, Config, CpuProfileRequest, PPROF_DEFAULT_SAMPLING, PPROF_DEFAULT_SECONDS};
use pprof_hyper_server::params::{get_params, parse_i32, parse_i32_params};

#[test]
fn parse_i32_reads_decimal_literals() {
    assert_eq!(parse_i32("42"), Some(42));
    assert_eq!(parse_i32("-12"), Some(-12));
    assert_eq!(parse_i32("+7"), Some(7));
    assert_eq!(parse_i32("007"), Some(7));
    assert_eq!(parse_i32("2147483647"), Some(i32::MAX));
    assert_eq!(parse_i32("-2147483648"), Some(i32::MIN));
}

#[test]
fn parse_i32_refuses_what_std_refuses() {
    for s in ["", "-", "+", "abc", "1a", " 1", "1.5", "2147483648", "-2147483649", "99999999999", "--1"] {
        assert_eq!(parse_i32(s), None, "{s}");
        assert_eq!(parse_i32(s), s.parse::<i32>().ok(), "{s}");
    }
}

#[test]
fn params_resolve_given_values() {
    let p = get_params(Some("seconds=1&sampling=100"));
    assert_eq!(parse_i32_params(&p, "seconds", 30), 1);
    assert_eq!(parse_i32_params(&p, "sampling", 99), 100);
}

#[test]
fn malformed_seconds_fall_back_to_default() {
    let p = get_params(Some("seconds=abc"));
    assert_eq!(parse_i32_params(&p, "seconds", 30), 30);
}

#[test]
fn absent_parameters_fall_back_to_default() {
    let p = get_params(None);
    assert_eq!(parse_i32_params(&p, "seconds", 30), 30);
    let p = get_params(Some(""));
    assert_eq!(parse_i32_params(&p, "seconds", 12), 12);
    let p = get_params(Some("sampling=5"));
    assert_eq!(parse_i32_params(&p, "seconds", -3), -3);
}

#[test]
fn params_are_percent_decoded() {
    let p = get_params(Some("se%63onds=%34%32&a+b=7"));
    assert_eq!(parse_i32_params(&p, "seconds", 0), 42);
    assert_eq!(parse_i32_params(&p, "a b", 0), 7);
}

#[test]
fn last_duplicate_parameter_wins() {
    let p = get_params(Some("seconds=1&seconds=2"));
    assert_eq!(parse_i32_params(&p, "seconds", 0), 2);
    let p = get_params(Some("seconds=1&seconds=x"));
    assert_eq!(parse_i32_params(&p, "seconds", 9), 9);
}

#[test]
fn cpu_request_uses_built_in_defaults() {
    let c = Config::default();
    assert_eq!(
        cpu_profile_request(&c, None),
        CpuProfileRequest { seconds: PPROF_DEFAULT_SECONDS, sampling: PPROF_DEFAULT_SAMPLING }
    );
    assert_eq!(PPROF_DEFAULT_SECONDS, 30);
    assert_eq!(PPROF_DEFAULT_SAMPLING, 99);
}

#[test]
fn cpu_request_uses_configured_defaults_and_query() {
    let c = Config { pprof_blocklist: None, pprof_default_seconds: Some(5), pprof_default_sampling: Some(50) };
    assert_eq!(cpu_profile_request(&c, Some("seconds=abc")), CpuProfileRequest { seconds: 5, sampling: 50 });
    assert_eq!(cpu_profile_request(&c, Some("seconds=1&sampling=100")), CpuProfileRequest { seconds: 1, sampling: 100 });
}

#[test]
fn blocklist_defaults_and_overrides() {
    let c = Config::default();
    assert_eq!(c.blocklist(), vec!["libc", "libgcc", "pthread", "vdso"]);
    let own: &[&str] = &["mylib"];
    let c = Config { pprof_blocklist: Some(own), ..Config::default() };
    assert_eq!(c.blocklist(), vec!["mylib"]);
}
