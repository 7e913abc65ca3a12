//! The endpoint validator's rules: where a route is probed, how the
//! outcome of a probe is classified, and what is said about it.

use vstd::prelude::*;

verus! {

/// Where the generated server listens.
pub const SERVER_BASE_URL: &'static str = "http://localhost:8080";

/// The status that a healthy route answers with.
pub const STATUS_OK: u16 = 200;

/// How long one probe may take, in seconds.
pub const PROBE_TIMEOUT_SECONDS: u64 = 5;

/// How long the server is given to start before it is probed, in seconds.
pub const WARM_UP_SECONDS: u64 = 5;

pub const TESTING_OPENING: &'static str = "Testing endpoint '";

pub const TESTING_CLOSING: &'static str = "'...";

pub const WARNING_OPENING: &'static str = "WARNING: Failed to call backend url endpoint ";

pub const FAILURE_OPENING: &'static str = "Error checking Backend ";

/// How one probe of a route ended.
#[derive(Debug, Clone, PartialEq)]
pub enum ProbeOutcome {
    /// The server answered with this HTTP status.
    Status(u16),
    /// The server could not be reached; the text says why.
    TransportFailure(String),
}

/// Mathematical content of a [`ProbeOutcome`].
pub enum ProbeOutcomeView {
    Status(u16),
    TransportFailure(Seq<char>),
}

impl View for ProbeOutcome {
    type V = ProbeOutcomeView;

    open spec fn view(&self) -> ProbeOutcomeView {
        match self {
            ProbeOutcome::Status(code) => ProbeOutcomeView::Status(*code),
            ProbeOutcome::TransportFailure(reason) => ProbeOutcomeView::TransportFailure(reason@),
        }
    }
}

/// What the validator makes of one probe.
#[derive(Debug, Clone, Copy, PartialEq, Eq, Structural)]
pub enum ProbeVerdict {
    /// The route answered with status 200: nothing is to be done.
    Pass,
    /// The route answered with another status: a warning is due.
    Warn,
    /// The server could not be reached: it is to be killed.
    Unreachable,
}

impl ProbeOutcomeView {
    /// Status 200 passes, any other status earns a warning, and only a
    /// failure of the transport makes the server unreachable.
    pub open spec fn verdict(self) -> ProbeVerdict {
        match self {
            ProbeOutcomeView::Status(code) => if code == STATUS_OK {
                ProbeVerdict::Pass
            } else {
                ProbeVerdict::Warn
            },
            ProbeOutcomeView::TransportFailure(_) => ProbeVerdict::Unreachable,
        }
    }
}

/// Classifies the outcome of one probe.
pub fn classify_probe(outcome: &ProbeOutcome) -> (verdict: ProbeVerdict)
    ensures
        verdict == outcome@.verdict(),
{
    match outcome {
        ProbeOutcome::Status(code) => if *code == STATUS_OK {
            ProbeVerdict::Pass
        } else {
            ProbeVerdict::Warn
        },
        ProbeOutcome::TransportFailure(_) => ProbeVerdict::Unreachable,
    }
}

/// The address at which a route is probed.
pub open spec fn probe_address(route: Seq<char>) -> Seq<char> {
    SERVER_BASE_URL@ + route
}

/// The line that announces the probe of a route.
pub open spec fn testing_statement(route: Seq<char>) -> Seq<char> {
    TESTING_OPENING@ + route + TESTING_CLOSING@
}

/// The warning about a route that answered with another status than 200.
pub open spec fn warning_statement(route: Seq<char>) -> Seq<char> {
    WARNING_OPENING@ + route
}

/// The line about a probe that did not reach the server.
pub open spec fn failure_statement(reason: Seq<char>) -> Seq<char> {
    FAILURE_OPENING@ + reason
}

/// Writes the address at which a route is probed.
pub fn probe_url(route: &str) -> (url: String)
    ensures
        url@ == probe_address(route@),
{
    let mut url = String::from_str(SERVER_BASE_URL);
    url.append(route);
    url
}

/// Writes the line that announces the probe of a route.
pub fn testing_message(route: &str) -> (statement: String)
    ensures
        statement@ == testing_statement(route@),
{
    let mut statement = String::from_str(TESTING_OPENING);
    statement.append(route);
    statement.append(TESTING_CLOSING);
    statement
}

/// Writes the warning about a route that answered with another status
/// than 200.
pub fn warning_message(route: &str) -> (statement: String)
    ensures
        statement@ == warning_statement(route@),
{
    let mut statement = String::from_str(WARNING_OPENING);
    statement.append(route);
    statement
}

/// Writes the line about a probe that did not reach the server.
pub fn failure_message(reason: &str) -> (statement: String)
    ensures
        statement@ == failure_statement(reason@),
{
    let mut statement = String::from_str(FAILURE_OPENING);
    statement.append(reason);
    statement
}

} // verus!
