//! The reconnection supervisor: the outer loop of the badge, which brings a
//! secured connection up, lets one session run on it, waits, and starts
//! over. It never gives up and never resumes a session.
//!
//! The supervisor decides; a driver acts. The driver performs the action of
//! the current stage (look the server up, connect, secure the stream, run
//! the session, sleep) and reports how it went; `Supervisor::step` answers
//! with the next stage and with what to show on the status display.

use vstd::prelude::*;
use crate::error::Error;
use crate::error::error_message;

verus! {

/// How long the supervisor waits before it tries again, in milliseconds.
pub const BACKOFF_MS: u64 = 3000;

/// The stage the supervisor is in, which is also the work it asks of its
/// driver.
#[derive(Debug, Clone, Copy, PartialEq, Eq, Structural)]
pub enum Stage {
    /// Find the server's address.
    Resolve,
    /// Open a connection to that address.
    Connect,
    /// Upgrade the connection to a secured stream.
    SecureHandshake,
    /// Run one session on the secured stream, to its end.
    RunSession,
    /// Sleep for `BACKOFF_MS`.
    Backoff,
}

/// What the driver reports when the work of a stage is over.
#[derive(Debug, Clone, Copy, PartialEq, Eq)]
pub enum Report {
    /// The work of the stage succeeded (for `Backoff`: the delay is over).
    Done,
    /// The work of the stage failed.
    Failed,
    /// The session ended because the peer, or this side, closed it.
    SessionClosed,
    /// The session ended with an error.
    SessionFailed(Error),
}

/// What the status display is to show after a transition.
#[derive(Debug, Clone, Copy, PartialEq, Eq)]
pub enum Status {
    /// Nothing new.
    Quiet,
    /// The server's address could not be found.
    ResolveFailed,
    /// The connection could not be opened.
    ConnectFailed,
    /// The stream could not be secured.
    HandshakeFailed,
    /// A secured connection stands.
    Established,
    /// The session was closed in good order.
    Closed,
    /// The session ended with this error.
    SessionError(Error),
}

/// The text of a status.
pub open spec fn status_message(s: Status) -> Seq<char> {
    match s {
        Status::Quiet => ""@,
        Status::ResolveFailed => "DNS query failed"@,
        Status::ConnectFailed => "Could not connect"@,
        Status::HandshakeFailed => "Failed to setup TLS connection"@,
        Status::Established => "TLS connection established!"@,
        Status::Closed => "Connection closed"@,
        Status::SessionError(e) => error_message(e),
    }
}

impl Status {
    /// The text to put on the status display; empty for `Quiet`.
    pub fn message(&self) -> (text: &'static str)
        ensures
            text@ == status_message(*self),
    {
        match self {
            Status::Quiet => "",
            Status::ResolveFailed => "DNS query failed",
            Status::ConnectFailed => "Could not connect",
            Status::HandshakeFailed => "Failed to setup TLS connection",
            Status::Established => "TLS connection established!",
            Status::Closed => "Connection closed",
            Status::SessionError(e) => e.message(),
        }
    }
}

/// The stage that follows `stage` once the driver has reported `report`.
///
/// Success moves one stage forward; the end of a session, whatever its
/// reason, and every failure lead to `Backoff`; `Backoff` leads to
/// `Resolve`. A report that does not belong to the stage (the end of a
/// session while none runs) counts as a failure of the stage.
pub open spec fn next_stage(stage: Stage, report: Report) -> Stage {
    match stage {
        Stage::Resolve => if report == Report::Done {
            Stage::Connect
        } else {
            Stage::Backoff
        },
        Stage::Connect => if report == Report::Done {
            Stage::SecureHandshake
        } else {
            Stage::Backoff
        },
        Stage::SecureHandshake => if report == Report::Done {
            Stage::RunSession
        } else {
            Stage::Backoff
        },
        Stage::RunSession => Stage::Backoff,
        Stage::Backoff => Stage::Resolve,
    }
}

/// What the status display shows after that transition.
pub open spec fn next_status(stage: Stage, report: Report) -> Status {
    match stage {
        Stage::Resolve => if report == Report::Done {
            Status::Quiet
        } else {
            Status::ResolveFailed
        },
        Stage::Connect => if report == Report::Done {
            Status::Quiet
        } else {
            Status::ConnectFailed
        },
        Stage::SecureHandshake => if report == Report::Done {
            Status::Established
        } else {
            Status::HandshakeFailed
        },
        Stage::RunSession => match report {
            Report::SessionFailed(e) => Status::SessionError(e),
            Report::Failed => Status::SessionError(Error::Transport),
            _ => Status::Closed,
        },
        Stage::Backoff => Status::Quiet,
    }
}

/// The reconnection supervisor.
pub struct Supervisor {
    stage: Stage,
}

impl View for Supervisor {
    type V = Stage;

    closed spec fn view(&self) -> Stage {
        self.stage
    }
}

impl Supervisor {
    /// A supervisor at the start of its loop: the driver is to resolve the
    /// server's address.
    pub fn new() -> (s: Self)
        ensures
            s@ == Stage::Resolve,
    {
        Supervisor { stage: Stage::Resolve }
    }

    /// The stage whose work the driver is to perform now.
    pub fn stage(&self) -> (stage: Stage)
        ensures
            stage == self@,
    {
        self.stage
    }

    /// Takes the driver's report on the current stage, moves to the next
    /// stage and returns it with the status to display.
    pub fn step(&mut self, report: Report) -> (next: (Stage, Status))
        ensures
            final(self)@ == next_stage(old(self)@, report),
            next.0 == next_stage(old(self)@, report),
            next.1 == next_status(old(self)@, report),
    {
        let done = match report {
            Report::Done => true,
            _ => false,
        };
        let (stage, status) = match self.stage {
            Stage::Resolve => if done {
                (Stage::Connect, Status::Quiet)
            } else {
                (Stage::Backoff, Status::ResolveFailed)
            },
            Stage::Connect => if done {
                (Stage::SecureHandshake, Status::Quiet)
            } else {
                (Stage::Backoff, Status::ConnectFailed)
            },
            Stage::SecureHandshake => if done {
                (Stage::RunSession, Status::Established)
            } else {
                (Stage::Backoff, Status::HandshakeFailed)
            },
            Stage::RunSession => match report {
                Report::SessionFailed(e) => (Stage::Backoff, Status::SessionError(e)),
                Report::Failed => (Stage::Backoff, Status::SessionError(Error::Transport)),
                _ => (Stage::Backoff, Status::Closed),
            },
            Stage::Backoff => (Stage::Resolve, Status::Quiet),
        };
        self.stage = stage;
        (stage, status)
    }
}

/// The stage reached from `stage` after the reports in `reports`, in order.
pub open spec fn stage_after(stage: Stage, reports: Seq<Report>) -> Stage
    decreases reports.len(),
{
    if reports.len() == 0 {
        stage
    } else {
        next_stage(stage_after(stage, reports.drop_last()), reports.last())
    }
}

/// A session is only ever run on a connection that was just resolved,
/// opened and secured: `RunSession` is entered from `SecureHandshake` on
/// success, and from nowhere else.
pub proof fn lemma_session_needs_fresh_handshake(stage: Stage, report: Report)
    requires
        next_stage(stage, report) == Stage::RunSession,
    ensures
        stage == Stage::SecureHandshake,
        report == Report::Done,
{
}

/// When a session is over the supervisor backs off, whatever the reason:
/// no session is resumed.
pub proof fn lemma_session_end_backs_off(report: Report)
    ensures
        next_stage(Stage::RunSession, report) == Stage::Backoff,
{
}

/// Every failure leads to `Backoff`: the supervisor tells no transient
/// error from a permanent one.
pub proof fn lemma_failure_backs_off(stage: Stage, report: Report)
    requires
        stage != Stage::Backoff,
        report != Report::Done,
    ensures
        next_stage(stage, report) == Stage::Backoff,
{
}

/// `Backoff` leads to `Resolve`, whatever is reported: the loop has no last
/// stage.
pub proof fn lemma_backoff_resolves(report: Report)
    ensures
        next_stage(Stage::Backoff, report) == Stage::Resolve,
{
}

/// Between two sessions lie a back-off and a complete new handshake: from
/// the end of a session, no fewer than four further reports pass before the
/// next session runs, and four suffice when all of them are `Done`.
pub proof fn lemma_reconnect_is_complete(end: Report, reports: Seq<Report>)
    requires
        stage_after(next_stage(Stage::RunSession, end), reports) == Stage::RunSession,
    ensures
        reports.len() >= 4,
        stage_after(
            next_stage(Stage::RunSession, end),
            seq![Report::Done, Report::Done, Report::Done, Report::Done],
        ) == Stage::RunSession,
{
    reveal_with_fuel(stage_after, 5);
}

} // verus!
