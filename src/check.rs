use vstd::prelude::*;
use crate::entry::{is_entry_line, parse_entry, single_colon_at, ProxyEntry};
use crate::text::{contains_text, occurs_in};

verus! {

/// How the check of one proxy ended.
#[derive(Clone, Copy, Debug, PartialEq, Eq, Structural)]
pub enum CheckOutcome {
    /// The request through the proxy succeeded, after `latency_ms` milliseconds.
    Working { latency_ms: u64 },
    /// The proxy could not be used; `connection_failed` where not even a connection was made.
    NotWorking { connection_failed: bool },
    /// The request failed with an error that mentions authentication.
    RequiresAuth,
    /// The line was not of the form `host:port`; nothing was sent.
    Malformed,
}

/// What came of the network part of a check, as the caller observed it.
pub enum Attempt {
    /// No connection to the proxy could be opened.
    ConnectFailed,
    /// The request through the proxy succeeded; `at_ms` is when it completed.
    Received { at_ms: u64 },
    /// The request through the proxy failed with this error text.
    RequestFailed { message: String },
}

/// The first step of a check.
pub enum CheckStep {
    /// The check is over at once, without any network activity.
    Finish(CheckOutcome),
    /// Open a connection to the proxy, then send the request through it; the clock read
    /// `started_ms` just before.
    Connect { entry: ProxyEntry, started_ms: u64 },
}

/// Starts the check of one line of the proxy list at time `now_ms`: a line that is not
/// `host:port` is `Malformed` at once; any other is to be connected to.
pub fn begin_check(line: &str, now_ms: u64) -> (r: CheckStep)
    ensures
        !is_entry_line(line@) <==> r == CheckStep::Finish(CheckOutcome::Malformed),
        is_entry_line(line@) ==> (r matches CheckStep::Connect { entry, started_ms } && {
            &&& started_ms == now_ms
            &&& single_colon_at(line@, entry.host@.len() as int)
            &&& entry.host@ == line@.take(entry.host@.len() as int)
            &&& entry.port@ == line@.skip(entry.host@.len() as int + 1)
        }),
{
    match parse_entry(line) {
        None => CheckStep::Finish(CheckOutcome::Malformed),
        Some(entry) => CheckStep::Connect { entry, started_ms: now_ms },
    }
}

/// The word that marks a failed request as one that needs credentials.
pub open spec fn auth_marker() -> Seq<char> {
    "authentication"@
}

/// The outcome of a check that started at `started_ms`, given what came of its network part.
pub open spec fn outcome_spec(started_ms: u64, attempt: Attempt) -> CheckOutcome {
    match attempt {
        Attempt::ConnectFailed => CheckOutcome::NotWorking { connection_failed: true },
        Attempt::Received { at_ms } => CheckOutcome::Working {
            latency_ms: if at_ms >= started_ms { (at_ms - started_ms) as u64 } else { 0 },
        },
        Attempt::RequestFailed { message } => if occurs_in(message@, auth_marker()) {
            CheckOutcome::RequiresAuth
        } else {
            CheckOutcome::NotWorking { connection_failed: false }
        },
    }
}

/// Classifies a check that started at `started_ms`: a failed connection is `NotWorking`; a
/// successful request is `Working` with the time from the start to its completion; a failed
/// request is `RequiresAuth` where its error text contains "authentication", else
/// `NotWorking`.
pub fn outcome_of(started_ms: u64, attempt: &Attempt) -> (r: CheckOutcome)
    ensures
        r == outcome_spec(started_ms, *attempt),
{
    match attempt {
        Attempt::ConnectFailed => CheckOutcome::NotWorking { connection_failed: true },
        Attempt::Received { at_ms } => CheckOutcome::Working {
            latency_ms: if *at_ms >= started_ms { *at_ms - started_ms } else { 0 },
        },
        Attempt::RequestFailed { message } => {
            if contains_text(message.as_str(), "authentication") {
                CheckOutcome::RequiresAuth
            } else {
                CheckOutcome::NotWorking { connection_failed: false }
            }
        },
    }
}

} // verus!
