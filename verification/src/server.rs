//! The timeout-guarded handler: route table, responses, and request handling.

use vstd::prelude::*;

use crate::race::{race_winner, resolution_delay, RaceOutcome};

verus! {

/// HTTP status returned when the handler completes before the watchdog.
pub const SUCCESS_STATUS: u16 = 200;

/// HTTP status returned when the watchdog fires first.
pub const TIMEOUT_STATUS: u16 = 408;

/// An HTTP-level response: a status code and a fixed body.
#[derive(Clone, Copy, Debug)]
pub struct Response {
    pub status: u16,
    pub body: &'static str,
}

/// The payload a completed handler returns.
pub open spec fn success_body() -> Seq<char> {
    "Hello, axum!"@
}

/// The body of a timed-out response: empty.
pub open spec fn timeout_body() -> Seq<char> {
    ""@
}

/// What the response must be for each race outcome.
pub open spec fn response_matches(r: Response, outcome: RaceOutcome) -> bool {
    match outcome {
        RaceOutcome::Completed => r.status == SUCCESS_STATUS && r.body@ == success_body(),
        RaceOutcome::TimedOut => r.status == TIMEOUT_STATUS && r.body@ == timeout_body(),
    }
}

/// Build the response for a resolved race.
pub fn response_for(outcome: RaceOutcome) -> (r: Response)
    ensures
        response_matches(r, outcome),
{
    match outcome {
        RaceOutcome::Completed => Response { status: SUCCESS_STATUS, body: "Hello, axum!" },
        RaceOutcome::TimedOut => Response { status: TIMEOUT_STATUS, body: "" },
    }
}

/// Delay of the handler shipped with the demonstration server.
pub const DEFAULT_HANDLER_MS: u64 = 2000;

/// Delay of the watchdog shipped with the demonstration server.
pub const DEFAULT_TIMEOUT_MS: u64 = 1000;

/// Port the demonstration server listens on.
pub const DEFAULT_PORT: u16 = 9999;

/// The configuration a server is started with: the two delays of the race,
/// passed explicitly rather than kept in process-wide state.
#[derive(Clone, Copy, Debug, PartialEq, Eq, Structural)]
pub struct ServerConfig {
    pub d_handler_ms: u64,
    pub d_timeout_ms: u64,
}

impl ServerConfig {
    /// A configuration with the given handler and watchdog delays.
    pub fn new(d_handler_ms: u64, d_timeout_ms: u64) -> (c: ServerConfig)
        ensures
            c.d_handler_ms == d_handler_ms,
            c.d_timeout_ms == d_timeout_ms,
    {
        ServerConfig { d_handler_ms, d_timeout_ms }
    }
}

impl Default for ServerConfig {
    /// The shipped configuration: a handler slower than its watchdog.
    fn default() -> (c: ServerConfig)
        ensures
            c.d_handler_ms == DEFAULT_HANDLER_MS,
            c.d_timeout_ms == DEFAULT_TIMEOUT_MS,
    {
        ServerConfig { d_handler_ms: DEFAULT_HANDLER_MS, d_timeout_ms: DEFAULT_TIMEOUT_MS }
    }
}

/// The request methods the route table distinguishes. Anything that is not a
/// GET falls under `Other`: the server has no route for it.
#[derive(Clone, Copy, Debug, PartialEq, Eq, Structural)]
pub enum Method {
    Get,
    Other,
}

/// The handlers a request can be routed to. There is exactly one.
#[derive(Clone, Copy, Debug, PartialEq, Eq, Structural)]
pub enum Route {
    TimeoutGuarded,
}

/// The byte of the root path `/`.
pub const ROOT_PATH_BYTE: u8 = 47;

/// The route table, written out as an explicit mapping: a GET on the root
/// path reaches the timeout-guarded handler, and nothing else is routed.
pub open spec fn route_of(method: Method, path: Seq<u8>) -> Option<Route> {
    if method == Method::Get && path == seq![ROOT_PATH_BYTE] {
        Some(Route::TimeoutGuarded)
    } else {
        None
    }
}

/// Look a request up in the route table. The path is given as its bytes.
pub fn dispatch(method: Method, path: &Vec<u8>) -> (r: Option<Route>)
    ensures
        r == route_of(method, path@),
{
    if method == Method::Get && path.len() == 1 && path[0] == ROOT_PATH_BYTE {
        proof {
            assert(path@ =~= seq![ROOT_PATH_BYTE]);
        }
        Some(Route::TimeoutGuarded)
    } else {
        proof {
            if path@ == seq![ROOT_PATH_BYTE] {
                assert(path@.len() == 1);
                assert(path@[0] == ROOT_PATH_BYTE);
            }
        }
        None
    }
}

/// What a resolved request leaves behind for the structured log: when it
/// arrived, when the race resolved, and which branch won.
#[derive(Clone, Copy, Debug, PartialEq, Eq, Structural)]
pub struct RequestLog {
    pub arrived_at_ms: u64,
    pub resolved_at_ms: u64,
    pub outcome: RaceOutcome,
}

impl RequestLog {
    /// The elapsed time the log line reports: from arrival to resolution.
    pub fn elapsed_ms(&self) -> (e: u64)
        requires
            self.arrived_at_ms <= self.resolved_at_ms,
        ensures
            e == self.resolved_at_ms - self.arrived_at_ms,
    {
        self.resolved_at_ms - self.arrived_at_ms
    }
}

/// Everything a request's handling pins down: the response sent back and
/// the log record of how the race resolved.
pub open spec fn handled_matches(h: (Response, RequestLog), arrival_ms: u64, cfg: ServerConfig) -> bool {
    &&& response_matches(h.0, race_winner(cfg.d_handler_ms, cfg.d_timeout_ms))
    &&& h.1.arrived_at_ms == arrival_ms
    &&& h.1.resolved_at_ms == arrival_ms + resolution_delay(cfg.d_handler_ms, cfg.d_timeout_ms)
    &&& h.1.outcome == race_winner(cfg.d_handler_ms, cfg.d_timeout_ms)
}

/// The timeout-guarded handler. Given a request's arrival time, race the
/// handler delay against the watchdog, and return the response together with
/// the log record of the resolution.
pub fn handle_request(arrival_ms: u64, cfg: &ServerConfig) -> (h: (Response, RequestLog))
    requires
        arrival_ms + resolution_delay(cfg.d_handler_ms, cfg.d_timeout_ms) <= u64::MAX,
    ensures
        handled_matches(h, arrival_ms, *cfg),
{
    let (outcome, delay) = crate::race::resolve_race(cfg.d_handler_ms, cfg.d_timeout_ms);
    let response = response_for(outcome);
    let log = RequestLog {
        arrived_at_ms: arrival_ms,
        resolved_at_ms: arrival_ms + delay,
        outcome,
    };
    (response, log)
}

/// Handle a batch of simultaneous or staggered requests, one per arrival
/// time. Each entry is handled exactly as it would be alone.
pub fn serve_all(arrivals: &Vec<u64>, cfg: &ServerConfig) -> (hs: Vec<(Response, RequestLog)>)
    requires
        forall|i: int| 0 <= i < arrivals@.len()
            ==> #[trigger] arrivals@[i] + resolution_delay(cfg.d_handler_ms, cfg.d_timeout_ms) <= u64::MAX,
    ensures
        hs@.len() == arrivals@.len(),
        forall|i: int| 0 <= i < arrivals@.len()
            ==> handled_matches(#[trigger] hs@[i], arrivals@[i], *cfg),
{
    let mut hs: Vec<(Response, RequestLog)> = Vec::new();
    let mut j: usize = 0;
    while j < arrivals.len()
        invariant
            j <= arrivals@.len(),
            hs@.len() == j,
            forall|i: int| 0 <= i < arrivals@.len()
                ==> #[trigger] arrivals@[i] + resolution_delay(cfg.d_handler_ms, cfg.d_timeout_ms) <= u64::MAX,
            forall|i: int| 0 <= i < j
                ==> handled_matches(#[trigger] hs@[i], arrivals@[i], *cfg),
        decreases arrivals@.len() - j,
    {
        let h = handle_request(arrivals[j], cfg);
        hs.push(h);
        j = j + 1;
    }
    hs
}

/// Law: whenever the handler delay exceeds the watchdog timeout, a handled
/// request always resolves to the timeout outcome — the response carries the
/// timeout status and never the success payload.
pub proof fn lemma_slow_handler_times_out(h: (Response, RequestLog), arrival_ms: u64, cfg: ServerConfig)
    requires
        handled_matches(h, arrival_ms, cfg),
        cfg.d_handler_ms > cfg.d_timeout_ms,
    ensures
        h.1.outcome == RaceOutcome::TimedOut,
        h.0.status == TIMEOUT_STATUS,
        h.0.body@ != success_body(),
{
    reveal_strlit("");
    reveal_strlit("Hello, axum!");
    assert(timeout_body().len() == 0);
    assert(success_body().len() == 12);
}

/// Law: whenever the handler delay is below the watchdog timeout, a handled
/// request always resolves to the success payload — the race logic itself,
/// not just the shipped delays, decides the outcome.
pub proof fn lemma_fast_handler_completes(h: (Response, RequestLog), arrival_ms: u64, cfg: ServerConfig)
    requires
        handled_matches(h, arrival_ms, cfg),
        cfg.d_handler_ms < cfg.d_timeout_ms,
    ensures
        h.1.outcome == RaceOutcome::Completed,
        h.0.status == SUCCESS_STATUS,
        h.0.body@ == success_body(),
{
}

/// Law: requests do not interfere. What a request resolves to is a function
/// of its own arrival time and the configuration alone, so two requests
/// handled with the same arrival and configuration — alone, or anywhere in
/// any batch — agree in response and log record.
pub proof fn lemma_requests_independent(
    h1: (Response, RequestLog),
    h2: (Response, RequestLog),
    arrival_ms: u64,
    cfg: ServerConfig,
)
    requires
        handled_matches(h1, arrival_ms, cfg),
        handled_matches(h2, arrival_ms, cfg),
    ensures
        h1.0.status == h2.0.status,
        h1.0.body@ == h2.0.body@,
        h1.1 == h2.1,
{
}

/// Law: every handled request resolves within the watchdog timeout of its
/// arrival, whichever branch wins the race.
pub proof fn lemma_resolved_within_watchdog(h: (Response, RequestLog), arrival_ms: u64, cfg: ServerConfig)
    requires
        handled_matches(h, arrival_ms, cfg),
    ensures
        h.1.resolved_at_ms <= arrival_ms + cfg.d_timeout_ms,
{
}

} // verus!
