//! Planning of latency probes: which kind of probe an endpoint gets and
//! what a finished probe reports. The probing itself is the caller's.

use vstd::prelude::*;
use vstd::string::*;
use crate::text::{decimal, text_view, to_decimal};

verus! {

/// The port that is probed where an endpoint names none.
pub const DEFAULT_PORT: u16 = 443;

/// Seconds after which an attempt to connect is given up.
pub const TCP_TIMEOUT_SECS: u64 = 5;

/// Seconds after which a web request is given up.
pub const HTTP_TIMEOUT_SECS: u64 = 10;

/// Text of the error for an attempt to connect that was given up.
pub const CONNECTION_TIMEOUT: &'static str = "Connection timeout";

/// The probe that an endpoint gets.
#[derive(Debug, PartialEq, Eq)]
pub enum ProbePlan {
    /// Time a web request for this address.
    Http { url: String },
    /// Time a connection to this host and port.
    Tcp { host: String, port: u16 },
}

/// View of a [`ProbePlan`].
pub enum ProbePlanView {
    Http { url: Seq<char> },
    Tcp { host: Seq<char>, port: u16 },
}

impl View for ProbePlan {
    type V = ProbePlanView;

    open spec fn view(&self) -> ProbePlanView {
        match self {
            ProbePlan::Http { url } => ProbePlanView::Http { url: url@ },
            ProbePlan::Tcp { host, port } => ProbePlanView::Tcp { host: host@, port: *port },
        }
    }
}

/// The address of a web probe: scheme, host and port.
pub open spec fn probe_url(scheme: Seq<char>, endpoint: Seq<char>, port: u16) -> Seq<char> {
    scheme + "://"@ + endpoint + ":"@ + decimal(port as nat)
}

/// The probe for an endpoint: a web request where the protocol is `http`
/// or `https`, a connection otherwise, to port 443 where none is given.
pub open spec fn probe_plan(
    endpoint: Seq<char>,
    port: Option<u16>,
    protocol: Option<Seq<char>>,
) -> ProbePlanView {
    let port = match port {
        Some(p) => p,
        None => DEFAULT_PORT,
    };
    if protocol == Some("http"@) {
        ProbePlanView::Http { url: probe_url("http"@, endpoint, port) }
    } else if protocol == Some("https"@) {
        ProbePlanView::Http { url: probe_url("https"@, endpoint, port) }
    } else {
        ProbePlanView::Tcp { host: endpoint, port }
    }
}

fn build_url(scheme: &str, endpoint: &str, port: u16) -> (url: String)
    ensures
        url@ == probe_url(scheme@, endpoint@, port),
{
    let mut url = scheme.to_owned();
    url.append("://");
    url.append(endpoint);
    url.append(":");
    url.append(to_decimal(port as u64).as_str());
    url
}

/// Plans the probe of an endpoint.
pub fn test_latency(endpoint: &str, port: Option<u16>, protocol: Option<&str>) -> (plan: ProbePlan)
    ensures
        plan@ == probe_plan(endpoint@, port, text_view(protocol)),
{
    let port = match port {
        Some(p) => p,
        None => DEFAULT_PORT,
    };
    match protocol {
        Some(p) => {
            let name = p.to_owned();
            if name == "http".to_owned() {
                ProbePlan::Http { url: build_url("http", endpoint, port) }
            } else if name == "https".to_owned() {
                ProbePlan::Http { url: build_url("https", endpoint, port) }
            } else {
                ProbePlan::Tcp { host: endpoint.to_owned(), port }
            }
        },
        None => ProbePlan::Tcp { host: endpoint.to_owned(), port },
    }
}

/// The probe that takes the place of an echo request that failed: a
/// connection to port 443 of the host.
pub fn ping_fallback(host: &str) -> (plan: ProbePlan)
    ensures
        plan@ == (ProbePlanView::Tcp { host: host@, port: DEFAULT_PORT }),
{
    ProbePlan::Tcp { host: host.to_owned(), port: DEFAULT_PORT }
}

/// Microseconds in a second.
pub const MICROS_PER_SEC: u64 = 1_000_000;

/// Nanoseconds in a microsecond.
pub const NANOS_PER_MICRO: u32 = 1000;

/// The whole microseconds of a span of `secs` seconds and `subsec_nanos`
/// nanoseconds.
pub open spec fn micros_of(secs: u64, subsec_nanos: u32) -> int {
    secs * MICROS_PER_SEC + subsec_nanos / NANOS_PER_MICRO
}

/// The latency in microseconds of a probe that took `secs` seconds and
/// `subsec_nanos` nanoseconds; the greatest number that fits where the span
/// is longer than that.
pub fn latency_micros(secs: u64, subsec_nanos: u32) -> (micros: u64)
    ensures
        micros == if micros_of(secs, subsec_nanos) <= u64::MAX {
            micros_of(secs, subsec_nanos)
        } else {
            u64::MAX as int
        },
{
    let sub: u64 = (subsec_nanos / NANOS_PER_MICRO) as u64;
    match secs.checked_mul(MICROS_PER_SEC) {
        Some(whole) => match whole.checked_add(sub) {
            Some(micros) => micros,
            None => u64::MAX,
        },
        None => u64::MAX,
    }
}

/// How an attempt to connect ended.
#[derive(Debug, PartialEq, Eq)]
pub enum ConnectOutcome {
    /// Connected after this many microseconds.
    Connected(u64),
    /// Refused or unreachable; the text says why.
    Failed(String),
    /// Given up after the timeout.
    TimedOut,
}

/// What a connection probe reports: the latency in microseconds, or the
/// text of the failure.
pub fn tcp_result(outcome: ConnectOutcome) -> (r: Result<u64, String>)
    ensures
        match outcome {
            ConnectOutcome::Connected(micros) => r == Ok::<u64, String>(micros),
            ConnectOutcome::Failed(reason) => r matches Err(text) && text@ == reason@,
            ConnectOutcome::TimedOut => r matches Err(text) && text@ == CONNECTION_TIMEOUT@,
        },
{
    match outcome {
        ConnectOutcome::Connected(micros) => Ok(micros),
        ConnectOutcome::Failed(reason) => Err(reason),
        ConnectOutcome::TimedOut => Err(CONNECTION_TIMEOUT.to_string()),
    }
}

} // verus!
