use lambda_adapter::orchestrator::{
    health_check_url, Action, ChildStatus, FatalError, Orchestrator, Phase, FATAL_EXIT_CODE,
    INIT_DEADLINE_MS, PROBE_TIMEOUT_MS,
};
use lambda_adapter::prober::{ProbeStep, Prober};
use lambda_adapter::pulse::{classify, HealthCheckError, ProbeReply};
use lambda_adapter::runtime::{get_executable_from_filepath, resolve_runtime, ConfigError, RuntimeKind};
use lambda_adapter::translate::{
    build_request, into_result, Header, HttpResponse, InvocationEvent, TranslateError, MAX_TARGET_BYTES,
};
use lambda_adapter::{create_symlinks, default_use_stream, Configuration, ResponseMode};

fn config(handler: &str) -> Configuration {
    Configuration {
        handler: handler.to_string(),
        server_url: "http://127.0.0.1:3000/".to_string(),
        use_stream: false,
    }
}

#[test]
fn js_entry_point_runs_under_node() {
    assert_eq!(resolve_runtime("server.js"), Ok(RuntimeKind::Node));
    assert_eq!(get_executable_from_filepath("/var/task/server.js"), Ok("node"));
}

#[test]
fn py_entry_point_runs_under_python() {
    assert_eq!(resolve_runtime("app/main.py"), Ok(RuntimeKind::Python));
    assert_eq!(get_executable_from_filepath("main.py"), Ok("python"));
}

#[test]
fn unknown_extension_is_config_error() {
    assert_eq!(resolve_runtime("server.rb"), Err(ConfigError::UnsupportedExtension));
    assert_eq!(resolve_runtime("server.jsx"), Err(ConfigError::UnsupportedExtension));
    assert_eq!(resolve_runtime("server"), Err(ConfigError::UnsupportedExtension));
    assert_eq!(resolve_runtime(""), Err(ConfigError::UnsupportedExtension));
    assert_eq!(get_executable_from_filepath("a.go"), Err(ConfigError::UnsupportedExtension));
}

#[test]
fn extension_comes_from_last_component() {
    assert_eq!(resolve_runtime("dir.py/server"), Err(ConfigError::UnsupportedExtension));
    assert_eq!(resolve_runtime("dir.rb/server.js"), Ok(RuntimeKind::Node));
    assert_eq!(resolve_runtime("archive.tar.py"), Ok(RuntimeKind::Python));
}

#[test]
fn trailing_separators_and_dot_components_are_skipped() {
    assert_eq!(resolve_runtime("server.js/"), Ok(RuntimeKind::Node));
    assert_eq!(get_executable_from_filepath("server.js/"), Ok("node"));
    assert_eq!(resolve_runtime("dir/app.py/."), Ok(RuntimeKind::Python));
    assert_eq!(get_executable_from_filepath("dir/app.py/."), Ok("python"));
    assert_eq!(resolve_runtime("dir/app.py//./"), Ok(RuntimeKind::Python));
}

#[test]
fn paths_without_file_name_are_config_errors() {
    assert_eq!(resolve_runtime("a.js/.."), Err(ConfigError::UnsupportedExtension));
    assert_eq!(resolve_runtime(".."), Err(ConfigError::UnsupportedExtension));
    assert_eq!(resolve_runtime("."), Err(ConfigError::UnsupportedExtension));
    assert_eq!(resolve_runtime("/"), Err(ConfigError::UnsupportedExtension));
    assert_eq!(resolve_runtime("..js"), Ok(RuntimeKind::Node));
}

#[test]
fn hidden_file_has_no_extension() {
    assert_eq!(resolve_runtime(".js"), Err(ConfigError::UnsupportedExtension));
    assert_eq!(resolve_runtime("dir/.py"), Err(ConfigError::UnsupportedExtension));
}

#[test]
fn classify_replies() {
    assert_eq!(classify(ProbeReply::Status(200)), Ok(()));
    assert_eq!(classify(ProbeReply::Status(503)), Err(HealthCheckError::NetworkError));
    assert_eq!(classify(ProbeReply::Status(204)), Err(HealthCheckError::NetworkError));
    assert_eq!(classify(ProbeReply::TransportError { timed_out: true }), Err(HealthCheckError::Timeout));
    assert_eq!(classify(ProbeReply::TransportError { timed_out: false }), Err(HealthCheckError::NetworkError));
}

#[test]
fn budget_is_deadline_over_timeout() {
    let p = Prober::new(8500, 50);
    assert_eq!(p.budget, 170);
    assert_eq!(p.attempts, 0);
    assert!(!p.ready);
    assert_eq!(Prober::new(120, 50).budget, 2);
    assert_eq!(Prober::new(10, 50).first_step(), ProbeStep::Exhausted);
}

/// Drives a prober against an upstream answering `reply` to every call; gives
/// the number of calls, the milliseconds slept, and the last step.
fn drive(mut p: Prober, replies: &dyn Fn(u64) -> ProbeReply) -> (u64, u64, ProbeStep) {
    let mut calls = 0u64;
    let mut slept = 0u64;
    let mut step = p.first_step();
    loop {
        match step {
            ProbeStep::ProbeNow => {}
            ProbeStep::SleepThenProbe(ms) => slept += ms,
            ProbeStep::Ready | ProbeStep::Exhausted => return (calls, slept, step),
        }
        let reply = replies(calls);
        calls += 1;
        step = p.record(classify(reply));
    }
}

#[test]
fn stops_on_first_200() {
    let (calls, slept, step) = drive(Prober::new(1000, 50), &|i| {
        if i < 3 { ProbeReply::TransportError { timed_out: true } } else { ProbeReply::Status(200) }
    });
    assert_eq!(step, ProbeStep::Ready);
    assert_eq!(calls, 4);
    assert_eq!(slept, 0);
    let (calls, _, step) = drive(Prober::new(1000, 50), &|_| ProbeReply::Status(200));
    assert_eq!((calls, step), (1, ProbeStep::Ready));
}

#[test]
fn always_timeout_exhausts_budget_without_sleep() {
    let (calls, slept, step) =
        drive(Prober::new(8500, 50), &|_| ProbeReply::TransportError { timed_out: true });
    assert_eq!(calls, 170);
    assert_eq!(slept, 0);
    assert_eq!(step, ProbeStep::Exhausted);
}

#[test]
fn always_503_sleeps_full_timeout_between_attempts() {
    let (calls, slept, step) = drive(Prober::new(1000, 50), &|_| ProbeReply::Status(503));
    assert_eq!(calls, 20);
    assert_eq!(slept, 19 * 50);
    assert_eq!(step, ProbeStep::Exhausted);
}

#[test]
fn network_error_sleeps_timeout() {
    let mut p = Prober::new(1000, 50);
    assert_eq!(p.record(Err(HealthCheckError::NetworkError)), ProbeStep::SleepThenProbe(50));
    assert_eq!(p.record(Err(HealthCheckError::Timeout)), ProbeStep::ProbeNow);
    assert_eq!(p.attempts, 2);
    assert_eq!(p.record(Ok(())), ProbeStep::Ready);
    assert!(p.ready);
}

#[test]
fn orchestrator_rejects_unknown_extension() {
    assert_eq!(
        Orchestrator::new(&config("handler.rb")).map(|(_, exe)| exe),
        Err(FatalError::Config(ConfigError::UnsupportedExtension))
    );
}

#[test]
fn early_exit_terminates_before_probe() {
    let (mut o, exe) = Orchestrator::new(&config("server.js")).unwrap();
    assert_eq!(exe, "node");
    assert_eq!(o.phase, Phase::Launching);
    let a = o.on_grace_elapsed(ChildStatus::Exited(Some(1)));
    assert_eq!(a, Action::Exit(FATAL_EXIT_CODE));
    assert_ne!(FATAL_EXIT_CODE, 0);
    assert_eq!(o.phase, Phase::Failed(FatalError::EarlyExit(Some(1))));
    assert_eq!(o.on_probe(ProbeReply::Status(200)), Action::Exit(FATAL_EXIT_CODE));
    assert_eq!(o.prober.attempts, 0);
}

#[test]
fn unknown_child_state_is_fatal() {
    let (mut o, _) = Orchestrator::new(&config("server.py")).unwrap();
    assert_eq!(o.on_grace_elapsed(ChildStatus::Unknown), Action::Exit(FATAL_EXIT_CODE));
    assert_eq!(o.phase, Phase::Failed(FatalError::WaitFailed));
}

#[test]
fn spawn_failure_is_fatal() {
    let (mut o, _) = Orchestrator::new(&config("server.py")).unwrap();
    assert_eq!(o.on_spawn_failed(), Action::Exit(FATAL_EXIT_CODE));
    assert_eq!(o.phase, Phase::Failed(FatalError::SpawnFailed));
}

#[test]
fn cold_start_reaches_serving() {
    let (mut o, _) = Orchestrator::new(&config("server.js")).unwrap();
    assert_eq!(o.prober.budget, INIT_DEADLINE_MS / PROBE_TIMEOUT_MS);
    assert_eq!(o.on_grace_elapsed(ChildStatus::Running), Action::Probe(PROBE_TIMEOUT_MS));
    assert_eq!(o.phase, Phase::Probing);
    assert_eq!(
        o.on_probe(ProbeReply::TransportError { timed_out: true }),
        Action::Probe(PROBE_TIMEOUT_MS)
    );
    assert_eq!(o.on_probe(ProbeReply::Status(503)), Action::SleepThenProbe(PROBE_TIMEOUT_MS));
    assert_eq!(o.on_probe(ProbeReply::Status(200)), Action::Serve);
    assert_eq!(o.phase, Phase::Serving);
    assert_eq!(o.prober.attempts, 3);
}

#[test]
fn cold_start_exhaustion_is_fatal() {
    let (mut o, _) = Orchestrator::new(&config("server.js")).unwrap();
    let mut a = o.on_grace_elapsed(ChildStatus::Running);
    let mut calls = 0u64;
    while let Action::Probe(_) = a {
        calls += 1;
        a = o.on_probe(ProbeReply::TransportError { timed_out: true });
    }
    assert_eq!(calls, 170);
    assert_eq!(a, Action::Exit(FATAL_EXIT_CODE));
    assert_eq!(o.phase, Phase::Failed(FatalError::NotReady));
}

#[test]
fn health_check_url_normalizes() {
    assert_eq!(health_check_url("http://localhost:3000").unwrap(), "http://localhost:3000/");
    assert_eq!(health_check_url("not a url"), Err(ConfigError::InvalidServerUrl));
}

fn event() -> InvocationEvent {
    InvocationEvent {
        method: "POST".to_string(),
        path: "/foo".to_string(),
        query: Some("a=1".to_string()),
        headers: vec![Header { name: "X-Test".to_string(), value: b"v".to_vec() }],
        body: br#"{"k":1}"#.to_vec(),
        request_context: br#"{"requestId":"r1"}"#.to_vec(),
        lambda_context: br#"{"function":"f"}"#.to_vec(),
    }
}

#[test]
fn translator_round_trip() {
    let req = build_request("http://127.0.0.1:3000/base?x=y", event()).unwrap();
    assert_eq!(req.method, "POST");
    assert_eq!(req.url, "http://127.0.0.1:3000/foo?a=1");
    assert_eq!(req.body, br#"{"k":1}"#.to_vec());
    assert_eq!(req.headers.len(), 3);
    assert_eq!(req.headers[0].name, "x-amzn-request-context");
    assert_eq!(req.headers[0].value, br#"{"requestId":"r1"}"#.to_vec());
    assert_eq!(req.headers[1].name, "x-amzn-lambda-context");
    assert_eq!(req.headers[1].value, br#"{"function":"f"}"#.to_vec());
    assert_eq!(req.headers[2].name, "X-Test");
    assert_eq!(req.headers[2].value, b"v".to_vec());
}

#[test]
fn translator_drops_base_query_without_event_query() {
    let mut e = event();
    e.query = None;
    let req = build_request("https://example.com:8443/x?old=1", e).unwrap();
    assert_eq!(req.url, "https://example.com:8443/foo");
}

#[test]
fn translator_keeps_duplicate_headers() {
    let mut e = event();
    e.headers.push(Header { name: "X-Test".to_string(), value: b"w".to_vec() });
    let req = build_request("http://localhost:8080", e).unwrap();
    assert_eq!(req.headers.len(), 4);
    assert_eq!(req.headers[3].value, b"w".to_vec());
}

#[test]
fn translator_rejects_invalid_base_url() {
    assert!(matches!(build_request("::not a url", event()), Err(TranslateError::InvalidBaseUrl)));
}

#[test]
fn translator_rejects_oversized_target() {
    let mut e = event();
    e.path = format!("/{}", "a".repeat(MAX_TARGET_BYTES));
    assert!(matches!(build_request("http://localhost", e), Err(TranslateError::TargetTooLong)));
}

#[test]
fn response_passes_through() {
    let resp = HttpResponse {
        status: 201,
        headers: vec![Header { name: "Content-Type".to_string(), value: b"application/json".to_vec() }],
        body: br#"{"ok":true}"#.to_vec(),
    };
    let r = into_result(resp);
    assert_eq!(r.status, 201);
    assert_eq!(r.headers.len(), 1);
    assert_eq!(r.headers[0].name, "Content-Type");
    assert_eq!(r.headers[0].value, b"application/json".to_vec());
    assert_eq!(r.body, br#"{"ok":true}"#.to_vec());
}

#[test]
fn buffered_is_default() {
    assert!(!default_use_stream());
    create_symlinks();
    let mut c = config("server.js");
    assert_eq!(c.response_mode(), ResponseMode::Buffered);
    c.use_stream = true;
    assert_eq!(c.response_mode(), ResponseMode::Streamed);
}
