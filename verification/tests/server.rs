use timeout_race::race::{resolve_race, RaceOutcome};
use timeout_race::server::{
    dispatch, handle_request, response_for, serve_all, Method, Response, Route, ServerConfig,
    DEFAULT_HANDLER_MS, DEFAULT_PORT, DEFAULT_TIMEOUT_MS, SUCCESS_STATUS, TIMEOUT_STATUS,
};

#[test]
fn resolve_race_slow_handler() {
    let (outcome, delay) = resolve_race(2000, 1000);
    assert_eq!(outcome, RaceOutcome::TimedOut);
    assert_eq!(delay, 1000);
}

#[test]
fn resolve_race_fast_handler() {
    let (outcome, delay) = resolve_race(500, 1000);
    assert_eq!(outcome, RaceOutcome::Completed);
    assert_eq!(delay, 500);
}

#[test]
fn resolve_race_tie_goes_to_watchdog() {
    let (outcome, delay) = resolve_race(1000, 1000);
    assert_eq!(outcome, RaceOutcome::TimedOut);
    assert_eq!(delay, 1000);
}

#[test]
fn response_for_completed() {
    let r: Response = response_for(RaceOutcome::Completed);
    assert_eq!(r.status, SUCCESS_STATUS);
    assert_eq!(r.body, "Hello, axum!");
}

#[test]
fn response_for_timed_out() {
    let r: Response = response_for(RaceOutcome::TimedOut);
    assert_eq!(r.status, TIMEOUT_STATUS);
    assert_eq!(r.body, "");
}

#[test]
fn request_with_shipped_delays_times_out_at_one_second() {
    let cfg = ServerConfig::new(2000, 1000);
    let (response, log) = handle_request(0, &cfg);
    assert_eq!(response.status, 408);
    assert_eq!(response.body, "");
    assert_eq!(log.arrived_at_ms, 0);
    assert_eq!(log.resolved_at_ms, 1000);
    assert_eq!(log.outcome, RaceOutcome::TimedOut);
}

#[test]
fn fast_handler_returns_payload_at_half_a_second() {
    let cfg = ServerConfig::new(500, 1000);
    let (response, log) = handle_request(0, &cfg);
    assert_eq!(response.status, 200);
    assert_eq!(response.body, "Hello, axum!");
    assert_eq!(log.resolved_at_ms, 500);
    assert_eq!(log.outcome, RaceOutcome::Completed);
}

#[test]
fn equal_delays_resolve_to_timeout() {
    let cfg = ServerConfig::new(1000, 1000);
    let (response, log) = handle_request(0, &cfg);
    assert_eq!(response.status, TIMEOUT_STATUS);
    assert_eq!(log.outcome, RaceOutcome::TimedOut);
}

#[test]
fn late_arrival_resolves_at_the_numeric_limit() {
    let cfg = ServerConfig::new(2000, 1000);
    let (_, log) = handle_request(u64::MAX - 1000, &cfg);
    assert_eq!(log.resolved_at_ms, u64::MAX);
}

#[test]
fn log_reports_elapsed_time() {
    let cfg = ServerConfig::new(2000, 1000);
    let (_, log) = handle_request(40, &cfg);
    assert_eq!(log.elapsed_ms(), 1000);
    let fast = ServerConfig::new(500, 1000);
    let (_, fast_log) = handle_request(40, &fast);
    assert_eq!(fast_log.elapsed_ms(), 500);
}

#[test]
fn default_config_matches_shipped_delays() {
    let cfg: ServerConfig = Default::default();
    assert_eq!(cfg.d_handler_ms, DEFAULT_HANDLER_MS);
    assert_eq!(cfg.d_timeout_ms, DEFAULT_TIMEOUT_MS);
    assert_eq!(cfg.d_handler_ms, 2000);
    assert_eq!(cfg.d_timeout_ms, 1000);
    assert_eq!(DEFAULT_PORT, 9999);
}

#[test]
fn dispatch_routes_get_on_root_only() {
    let root: Vec<u8> = vec![b'/'];
    assert_eq!(dispatch(Method::Get, &root), Some(Route::TimeoutGuarded));
    assert_eq!(dispatch(Method::Other, &root), None);
    let other: Vec<u8> = vec![b'/', b'x'];
    assert_eq!(dispatch(Method::Get, &other), None);
    let empty: Vec<u8> = vec![];
    assert_eq!(dispatch(Method::Get, &empty), None);
}

#[test]
fn simultaneous_requests_time_out_independently() {
    let cfg = ServerConfig::new(2000, 1000);
    let arrivals: Vec<u64> = vec![0, 0, 0, 0, 0];
    let handled = serve_all(&arrivals, &cfg);
    assert_eq!(handled.len(), 5);
    for (response, log) in &handled {
        assert_eq!(response.status, TIMEOUT_STATUS);
        assert_eq!(log.arrived_at_ms, 0);
        assert_eq!(log.resolved_at_ms, 1000);
        assert_eq!(log.outcome, RaceOutcome::TimedOut);
    }
}

#[test]
fn batched_requests_match_requests_handled_alone() {
    let cfg = ServerConfig::new(2000, 1000);
    let arrivals: Vec<u64> = vec![0, 5, 10];
    let handled = serve_all(&arrivals, &cfg);
    assert_eq!(handled.len(), 3);
    for (i, arrival) in arrivals.iter().enumerate() {
        let (alone_response, alone_log) = handle_request(*arrival, &cfg);
        let (batched_response, batched_log) = handled[i];
        assert_eq!(batched_response.status, alone_response.status);
        assert_eq!(batched_response.body, alone_response.body);
        assert_eq!(batched_log, alone_log);
        assert_eq!(batched_log.resolved_at_ms, arrival + 1000);
    }
}
