//! The server's side of one connection.
//!
//! For every `Ready` the server reads the store and answers with an
//! `Update` that holds the fields whose value differs from the one it last
//! sent on this same connection; then it pauses before it reads the next
//! request. `Close` ends the session in good order, and any failure ends it
//! with that error. Sessions share nothing but the store they read, so one
//! connection cannot disturb another.
//!
//! The session decides; a driver acts. The driver performs the action it
//! is given (read a request, read the store, send the reply and flush,
//! pause) and reports the outcome as the next event.

use vstd::prelude::*;
use crate::error::Error;
use crate::message::text_view;
use crate::message::Request;
use crate::message::Update;
use crate::message::UpdateView;
use crate::shared_state::Snapshot;

verus! {

/// How long the server pauses after a reply, before it reads the next
/// request, in milliseconds.
pub const POLL_INTERVAL_MS: u64 = 1000;

/// Where a server session stands.
#[derive(Debug, Clone, Copy, PartialEq, Eq)]
pub enum ServerState {
    /// A request is being read.
    AwaitRequest,
    /// A `Ready` was read; the store is being read.
    ReadState,
    /// The reply is being written and flushed.
    Reply,
    /// The reply went out; the pause before the next request is running.
    Pause,
    /// The badge closed the session.
    Closed,
    /// The session failed.
    Failed(Error),
}

/// What the driver reports to a server session.
#[derive(Debug, PartialEq, Eq)]
pub enum ServerEvent {
    /// Reading and decoding one request ended like this.
    RequestRead(Result<Request, Error>),
    /// The store was read and holds these values.
    StateRead {
        text: Option<String>,
        freq: Option<u32>,
    },
    /// Writing and flushing the reply ended like this.
    ReplySent(Result<(), Error>),
    /// The pause is over.
    PauseElapsed,
}

/// What a server session asks of its driver.
#[derive(Debug, PartialEq, Eq)]
pub enum ServerAction {
    /// Read and decode one `Request` frame.
    ReadRequest,
    /// Read the text and the interval that the store holds now.
    ReadState,
    /// Encode this update, write its frame and flush.
    SendReply(Update),
    /// Sleep for `POLL_INTERVAL_MS`.
    Pause,
    /// Tear the connection down: the session is over.
    Stop,
}

/// The sort of an event, without what it carries.
#[derive(Debug, Clone, Copy, PartialEq, Eq)]
pub enum ServerSignal {
    /// `Ready` was read.
    Ready,
    /// `Close` was read.
    Close,
    /// The store was read.
    StateRead,
    /// The reply went out.
    ReplySent,
    /// The pause is over.
    PauseElapsed,
    /// What the driver attempted failed.
    Failed(Error),
}

/// The sort of an action, without what it carries.
#[derive(Debug, Clone, Copy, PartialEq, Eq)]
pub enum ServerDemand {
    /// Read a request.
    ReadRequest,
    /// Read the store.
    ReadState,
    /// Send a reply.
    SendReply,
    /// Pause.
    Pause,
    /// Stop.
    Stop,
}

impl ServerEvent {
    /// The sort of this event.
    pub open spec fn signal(self) -> ServerSignal {
        match self {
            ServerEvent::RequestRead(Ok(Request::Ready)) => ServerSignal::Ready,
            ServerEvent::RequestRead(Ok(Request::Close)) => ServerSignal::Close,
            ServerEvent::RequestRead(Err(e)) => ServerSignal::Failed(e),
            ServerEvent::StateRead { .. } => ServerSignal::StateRead,
            ServerEvent::ReplySent(Ok(())) => ServerSignal::ReplySent,
            ServerEvent::ReplySent(Err(e)) => ServerSignal::Failed(e),
            ServerEvent::PauseElapsed => ServerSignal::PauseElapsed,
        }
    }

    /// The values of the store that this event carries, if it carries any.
    pub open spec fn snapshot(self) -> Option<Snapshot> {
        match self {
            ServerEvent::StateRead { text, freq } => Some(
                Snapshot { text: text_view(text), freq },
            ),
            _ => None,
        }
    }
}

impl ServerAction {
    /// The sort of this action.
    pub open spec fn demand(self) -> ServerDemand {
        match self {
            ServerAction::ReadRequest => ServerDemand::ReadRequest,
            ServerAction::ReadState => ServerDemand::ReadState,
            ServerAction::SendReply(_) => ServerDemand::SendReply,
            ServerAction::Pause => ServerDemand::Pause,
            ServerAction::Stop => ServerDemand::Stop,
        }
    }
}

/// The state that follows `state` on an event of the sort `signal`.
///
/// Requests and replies alternate strictly: an event that does not answer
/// the action in progress is a protocol error, and a session that is over
/// stays over.
pub open spec fn server_next(state: ServerState, signal: ServerSignal) -> ServerState {
    match (state, signal) {
        (ServerState::Closed, _) => ServerState::Closed,
        (ServerState::Failed(e), _) => ServerState::Failed(e),
        (_, ServerSignal::Failed(e)) => ServerState::Failed(e),
        (ServerState::AwaitRequest, ServerSignal::Ready) => ServerState::ReadState,
        (ServerState::AwaitRequest, ServerSignal::Close) => ServerState::Closed,
        (ServerState::ReadState, ServerSignal::StateRead) => ServerState::Reply,
        (ServerState::Reply, ServerSignal::ReplySent) => ServerState::Pause,
        (ServerState::Pause, ServerSignal::PauseElapsed) => ServerState::AwaitRequest,
        _ => ServerState::Failed(Error::Protocol),
    }
}

/// What the driver is to do in `state`.
pub open spec fn server_demand(state: ServerState) -> ServerDemand {
    match state {
        ServerState::AwaitRequest => ServerDemand::ReadRequest,
        ServerState::ReadState => ServerDemand::ReadState,
        ServerState::Reply => ServerDemand::SendReply,
        ServerState::Pause => ServerDemand::Pause,
        ServerState::Closed => ServerDemand::Stop,
        ServerState::Failed(_) => ServerDemand::Stop,
    }
}

/// The update that tells a badge which last heard `sent` that the store now
/// holds `now`: each field is named if and only if it differs from the one
/// last sent.
pub open spec fn reply_for(sent: Snapshot, now: Snapshot) -> UpdateView {
    UpdateView {
        text: if now.text != sent.text {
            now.text
        } else {
            None
        },
        freq: if now.freq != sent.freq {
            now.freq
        } else {
            None
        },
    }
}

/// The server's side of one connection.
pub struct ServerSession {
    state: ServerState,
    last_text: Option<String>,
    last_freq: Option<u32>,
}

/// Whether two optional texts hold the same characters, or are both absent.
fn same_text(a: &Option<String>, b: &Option<String>) -> (same: bool)
    ensures
        same <==> text_view(*a) == text_view(*b),
{
    match (a, b) {
        (Some(x), Some(y)) => *x == *y,
        (None, None) => true,
        _ => false,
    }
}

impl ServerSession {
    /// Where the session stands.
    pub closed spec fn state(&self) -> ServerState {
        self.state
    }

    /// The values that this connection was last told.
    pub closed spec fn sent(&self) -> Snapshot {
        Snapshot { text: text_view(self.last_text), freq: self.last_freq }
    }

    /// A session on a connection that was just accepted, with its first
    /// action: to read a request. Nothing was sent on the connection yet.
    pub fn start() -> (begun: (Self, ServerAction))
        ensures
            begun.0.state() == ServerState::AwaitRequest,
            begun.0.sent() == (Snapshot { text: None, freq: None }),
            begun.1 == ServerAction::ReadRequest,
    {
        (
            ServerSession { state: ServerState::AwaitRequest, last_text: None, last_freq: None },
            ServerAction::ReadRequest,
        )
    }

    /// Whether the session is over, in good order or not.
    pub fn is_over(&self) -> (over: bool)
        ensures
            over <==> server_demand(self.state()) == ServerDemand::Stop,
    {
        match self.state {
            ServerState::Closed => true,
            ServerState::Failed(_) => true,
            _ => false,
        }
    }

    /// The error that ended the session, if one did.
    pub fn failure(&self) -> (e: Option<Error>)
        ensures
            e == match self.state() {
                ServerState::Failed(e) => Some(e),
                _ => None,
            },
    {
        match self.state {
            ServerState::Failed(e) => Some(e),
            _ => None,
        }
    }

    /// Takes the driver's report and answers with what to do next.
    ///
    /// The reply names the fields in which the store, as it was just read,
    /// differs from what this connection was last told, and the session
    /// remembers the store's values as told.
    pub fn step(&mut self, event: ServerEvent) -> (action: ServerAction)
        ensures
            final(self).state() == server_next(old(self).state(), event.signal()),
            action.demand() == server_demand(final(self).state()),
            action matches ServerAction::SendReply(update) ==> update@ == reply_for(
                old(self).sent(),
                event.snapshot().unwrap(),
            ),
            final(self).sent() == if final(self).state() == ServerState::Reply {
                event.snapshot().unwrap()
            } else {
                old(self).sent()
            },
    {
        match self.state {
            ServerState::Closed => {
                return ServerAction::Stop;
            },
            ServerState::Failed(_) => {
                return ServerAction::Stop;
            },
            _ => {},
        }
        match event {
            ServerEvent::RequestRead(Err(e)) => {
                self.state = ServerState::Failed(e);
                ServerAction::Stop
            },
            ServerEvent::ReplySent(Err(e)) => {
                self.state = ServerState::Failed(e);
                ServerAction::Stop
            },
            ServerEvent::RequestRead(Ok(request)) => {
                match self.state {
                    ServerState::AwaitRequest => match request {
                        Request::Ready => {
                            self.state = ServerState::ReadState;
                            ServerAction::ReadState
                        },
                        Request::Close => {
                            self.state = ServerState::Closed;
                            ServerAction::Stop
                        },
                    },
                    _ => {
                        self.state = ServerState::Failed(Error::Protocol);
                        ServerAction::Stop
                    },
                }
            },
            ServerEvent::StateRead { text, freq } => {
                match self.state {
                    ServerState::ReadState => {
                        let text_changed = !same_text(&self.last_text, &text);
                        let freq_changed = self.last_freq != freq;
                        let told_text = if text_changed {
                            text.clone()
                        } else {
                            None
                        };
                        let told_freq = if freq_changed {
                            freq
                        } else {
                            None
                        };
                        self.last_text = text;
                        self.last_freq = freq;
                        self.state = ServerState::Reply;
                        ServerAction::SendReply(Update { text: told_text, freq: told_freq })
                    },
                    _ => {
                        self.state = ServerState::Failed(Error::Protocol);
                        ServerAction::Stop
                    },
                }
            },
            ServerEvent::ReplySent(Ok(())) => {
                match self.state {
                    ServerState::Reply => {
                        self.state = ServerState::Pause;
                        ServerAction::Pause
                    },
                    _ => {
                        self.state = ServerState::Failed(Error::Protocol);
                        ServerAction::Stop
                    },
                }
            },
            ServerEvent::PauseElapsed => {
                match self.state {
                    ServerState::Pause => {
                        self.state = ServerState::AwaitRequest;
                        ServerAction::ReadRequest
                    },
                    _ => {
                        self.state = ServerState::Failed(Error::Protocol);
                        ServerAction::Stop
                    },
                }
            },
        }
    }
}

/// Requests and replies alternate strictly: the store is read only when a
/// `Ready` came in, a reply is sent only when the store was read for it,
/// the pause only follows a reply that went out, and the next request is
/// read only when the pause is over.
pub proof fn lemma_server_alternates(state: ServerState, signal: ServerSignal)
    ensures
        server_next(state, signal) == ServerState::ReadState ==> state
            == ServerState::AwaitRequest && signal == ServerSignal::Ready,
        server_next(state, signal) == ServerState::Reply ==> state == ServerState::ReadState
            && signal == ServerSignal::StateRead,
        server_next(state, signal) == ServerState::Pause ==> state == ServerState::Reply
            && signal == ServerSignal::ReplySent,
        server_next(state, signal) == ServerState::AwaitRequest ==> state == ServerState::Pause
            && signal == ServerSignal::PauseElapsed,
{
}

/// A session that is over stays over, and as it ended.
pub proof fn lemma_server_end_is_final(state: ServerState, signal: ServerSignal)
    requires
        server_demand(state) == ServerDemand::Stop,
    ensures
        server_next(state, signal) == state,
{
}

/// Any failure that the driver reports to a running session ends it with
/// that error.
pub proof fn lemma_server_failure_ends(state: ServerState, e: Error)
    requires
        server_demand(state) != ServerDemand::Stop,
    ensures
        server_next(state, ServerSignal::Failed(e)) == ServerState::Failed(e),
{
}

/// The first reply on a connection names every value that the store holds.
pub proof fn lemma_first_reply_tells_all(now: Snapshot)
    ensures
        reply_for(Snapshot { text: None, freq: None }, now) == (UpdateView {
            text: now.text,
            freq: now.freq,
        }),
{
}

/// A reply names nothing when the store holds what the connection was last
/// told; and a field that it does name carries the store's value.
pub proof fn lemma_reply_names_changes(sent: Snapshot, now: Snapshot)
    ensures
        now == sent ==> reply_for(sent, now) == UpdateView::unchanged(),
        reply_for(sent, now).text matches Some(t) ==> now.text == Some(t) && sent.text != Some(t),
        reply_for(sent, now).freq matches Some(f) ==> now.freq == Some(f) && sent.freq != Some(f),
        reply_for(now, now) == UpdateView::unchanged(),
{
}

/// What a badge holds to be the server's values once it has heard
/// `update`, if it held them to be `known` before: a field that the update
/// names is taken from it, and every other field stays.
pub open spec fn overlay(known: Snapshot, update: UpdateView) -> Snapshot {
    Snapshot {
        text: if update.text is Some {
            update.text
        } else {
            known.text
        },
        freq: if update.freq is Some {
            update.freq
        } else {
            known.freq
        },
    }
}

/// A reply brings the badge up to date: a badge that knew what it was last
/// told, and hears the reply, knows what the store holds. (A value in the
/// store is never unset, only replaced.)
pub proof fn lemma_reply_brings_up_to_date(sent: Snapshot, now: Snapshot)
    requires
        now.text is None ==> sent.text is None,
        now.freq is None ==> sent.freq is None,
    ensures
        overlay(sent, reply_for(sent, now)) == now,
{
}

} // verus!
