//! The badge's side of one connection.
//!
//! The session asks (`Request::Ready`), waits for the answer, applies it to
//! the relay primitives and asks again, until something fails or the
//! connection is closed. It never retries: it lives exactly as long as its
//! connection, and what ends it is handed to the supervisor as it is.
//!
//! The session decides; a driver acts. The driver performs the action it
//! is given, each network operation raced against a timer of
//! `OPERATION_TIMEOUT_MS`, and reports the outcome as the next event.

use vstd::prelude::*;
use crate::error::Error;
use crate::message::Request;
use crate::message::Update;
use crate::message::UpdateView;
use crate::relay::accepts;
use crate::relay::after_send;
use crate::relay::after_write;
use crate::relay::LatestSlot;
use crate::relay::Mailbox;
use crate::server::reply_for;
use crate::shared_state::Snapshot;

verus! {

/// How long one network operation of a session may take, in milliseconds.
pub const OPERATION_TIMEOUT_MS: u64 = 10_000;

/// Where a client session stands.
#[derive(Debug, Clone, Copy, PartialEq, Eq)]
pub enum ClientState {
    /// This request is being written and flushed.
    SendRequest(Request),
    /// The update that answers the request is being read.
    AwaitUpdate,
    /// The update is being handed to the relay primitives.
    Apply,
    /// The connection was closed, by the peer or by this side's `Close`.
    ClosedByPeer,
    /// The session failed.
    Failed(Error),
}

/// What the driver reports to a client session.
#[derive(Debug, PartialEq, Eq)]
pub enum ClientEvent {
    /// Writing and flushing the request ended like this.
    Sent(Result<(), Error>),
    /// Reading and decoding one update ended like this.
    Received(Result<Update, Error>),
    /// The update was handed to the relay primitives.
    Applied,
    /// The peer closed the connection.
    PeerClosed,
}

/// What a client session asks of its driver.
#[derive(Debug, PartialEq, Eq)]
pub enum ClientAction {
    /// Encode this request, write its frame and flush.
    Send(Request),
    /// Read and decode one `Update` frame.
    Receive,
    /// Hand this update to the relay primitives with `apply_update`.
    Apply(Update),
    /// Give the connection up: the session is over.
    Stop,
}

/// The sort of an event, without what it carries.
#[derive(Debug, Clone, Copy, PartialEq, Eq)]
pub enum ClientSignal {
    /// The request went out.
    Sent,
    /// An update came in.
    Received,
    /// The update was applied.
    Applied,
    /// The peer closed the connection.
    PeerClosed,
    /// What the driver attempted failed.
    Failed(Error),
}

/// The sort of an action, without what it carries.
#[derive(Debug, Clone, Copy, PartialEq, Eq)]
pub enum ClientDemand {
    /// Send this request.
    Send(Request),
    /// Receive an update.
    Receive,
    /// Apply an update.
    Apply,
    /// Stop.
    Stop,
}

impl ClientEvent {
    /// The sort of this event.
    pub open spec fn signal(self) -> ClientSignal {
        match self {
            ClientEvent::Sent(Ok(())) => ClientSignal::Sent,
            ClientEvent::Sent(Err(e)) => ClientSignal::Failed(e),
            ClientEvent::Received(Ok(_)) => ClientSignal::Received,
            ClientEvent::Received(Err(e)) => ClientSignal::Failed(e),
            ClientEvent::Applied => ClientSignal::Applied,
            ClientEvent::PeerClosed => ClientSignal::PeerClosed,
        }
    }

    /// The update that this event carries, if it carries one.
    pub open spec fn update(self) -> Option<Update> {
        match self {
            ClientEvent::Received(Ok(update)) => Some(update),
            _ => None,
        }
    }
}

impl ClientAction {
    /// The sort of this action.
    pub open spec fn demand(self) -> ClientDemand {
        match self {
            ClientAction::Send(request) => ClientDemand::Send(request),
            ClientAction::Receive => ClientDemand::Receive,
            ClientAction::Apply(_) => ClientDemand::Apply,
            ClientAction::Stop => ClientDemand::Stop,
        }
    }
}

/// The state that follows `state` on an event of the sort `signal`, where
/// `closing` says whether this side has asked for the session to be closed.
///
/// Requests and updates alternate strictly. A failure ends the session with
/// that error; that the peer closed, or that this side's `Close` went out,
/// ends it in good order; an event that does not answer the action in
/// progress is a protocol error; and a session that is over stays over.
pub open spec fn client_next(state: ClientState, closing: bool, signal: ClientSignal)
    -> ClientState {
    match (state, signal) {
        (ClientState::ClosedByPeer, _) => ClientState::ClosedByPeer,
        (ClientState::Failed(e), _) => ClientState::Failed(e),
        (_, ClientSignal::Failed(e)) => ClientState::Failed(e),
        (_, ClientSignal::PeerClosed) => ClientState::ClosedByPeer,
        (ClientState::SendRequest(Request::Ready), ClientSignal::Sent) => ClientState::AwaitUpdate,
        (ClientState::SendRequest(Request::Close), ClientSignal::Sent) => ClientState::ClosedByPeer,
        (ClientState::AwaitUpdate, ClientSignal::Received) => ClientState::Apply,
        (ClientState::Apply, ClientSignal::Applied) => ClientState::SendRequest(
            if closing {
                Request::Close
            } else {
                Request::Ready
            },
        ),
        _ => ClientState::Failed(Error::Protocol),
    }
}

/// What the driver is to do in `state`.
pub open spec fn client_demand(state: ClientState) -> ClientDemand {
    match state {
        ClientState::SendRequest(request) => ClientDemand::Send(request),
        ClientState::AwaitUpdate => ClientDemand::Receive,
        ClientState::Apply => ClientDemand::Apply,
        ClientState::ClosedByPeer => ClientDemand::Stop,
        ClientState::Failed(_) => ClientDemand::Stop,
    }
}

/// The badge's side of one connection.
pub struct ClientSession {
    state: ClientState,
    closing: bool,
}

impl ClientSession {
    /// Where the session stands.
    pub closed spec fn state(&self) -> ClientState {
        self.state
    }

    /// Whether this side has asked for the session to be closed.
    pub closed spec fn closing(&self) -> bool {
        self.closing
    }

    /// A session on a connection that was just secured, with its first
    /// action: to send `Request::Ready`.
    pub fn start() -> (begun: (Self, ClientAction))
        ensures
            begun.0.state() == ClientState::SendRequest(Request::Ready),
            !begun.0.closing(),
            begun.1 == ClientAction::Send(Request::Ready),
    {
        (
            ClientSession { state: ClientState::SendRequest(Request::Ready), closing: false },
            ClientAction::Send(Request::Ready),
        )
    }

    /// Asks for the session to be closed: in place of the next
    /// `Request::Ready` the session will send `Request::Close` and end.
    pub fn request_close(&mut self)
        ensures
            final(self).state() == old(self).state(),
            final(self).closing(),
    {
        self.closing = true;
    }

    /// Whether the session is over, in good order or not.
    pub fn is_over(&self) -> (over: bool)
        ensures
            over <==> client_demand(self.state()) == ClientDemand::Stop,
    {
        match self.state {
            ClientState::ClosedByPeer => true,
            ClientState::Failed(_) => true,
            _ => false,
        }
    }

    /// The error that ended the session, if one did.
    pub fn failure(&self) -> (e: Option<Error>)
        ensures
            e == match self.state() {
                ClientState::Failed(e) => Some(e),
                _ => None,
            },
    {
        match self.state {
            ClientState::Failed(e) => Some(e),
            _ => None,
        }
    }

    /// Takes the driver's report and answers with what to do next. An
    /// update that was received is handed on unchanged, to be applied.
    pub fn step(&mut self, event: ClientEvent) -> (action: ClientAction)
        ensures
            final(self).state() == client_next(
                old(self).state(),
                old(self).closing(),
                event.signal(),
            ),
            final(self).closing() == old(self).closing(),
            action.demand() == client_demand(final(self).state()),
            action matches ClientAction::Apply(update) ==> event.update() == Some(update),
    {
        match self.state {
            ClientState::ClosedByPeer => {
                return ClientAction::Stop;
            },
            ClientState::Failed(_) => {
                return ClientAction::Stop;
            },
            _ => {},
        }
        match event {
            ClientEvent::Sent(Err(e)) => {
                self.state = ClientState::Failed(e);
                ClientAction::Stop
            },
            ClientEvent::Received(Err(e)) => {
                self.state = ClientState::Failed(e);
                ClientAction::Stop
            },
            ClientEvent::PeerClosed => {
                self.state = ClientState::ClosedByPeer;
                ClientAction::Stop
            },
            ClientEvent::Sent(Ok(())) => match self.state {
                ClientState::SendRequest(Request::Ready) => {
                    self.state = ClientState::AwaitUpdate;
                    ClientAction::Receive
                },
                ClientState::SendRequest(Request::Close) => {
                    self.state = ClientState::ClosedByPeer;
                    ClientAction::Stop
                },
                _ => {
                    self.state = ClientState::Failed(Error::Protocol);
                    ClientAction::Stop
                },
            },
            ClientEvent::Received(Ok(update)) => match self.state {
                ClientState::AwaitUpdate => {
                    self.state = ClientState::Apply;
                    ClientAction::Apply(update)
                },
                _ => {
                    self.state = ClientState::Failed(Error::Protocol);
                    ClientAction::Stop
                },
            },
            ClientEvent::Applied => match self.state {
                ClientState::Apply => {
                    let request = if self.closing {
                        Request::Close
                    } else {
                        Request::Ready
                    };
                    self.state = ClientState::SendRequest(request);
                    ClientAction::Send(request)
                },
                _ => {
                    self.state = ClientState::Failed(Error::Protocol);
                    ClientAction::Stop
                },
            },
        }
    }
}

/// The slot after `update` was applied: it holds the interval that the
/// update names, or what it held if the update names none.
pub open spec fn slot_after(update: Update, slot: Option<u64>) -> Option<u64> {
    match update.freq {
        Some(f) => after_write(slot, f as u64),
        None => slot,
    }
}

/// The mailbox after `update` was applied: the text that the update names
/// was sent to it; if the update names none, nothing was.
pub open spec fn mailbox_after(update: Update, mailbox: Seq<String>) -> Seq<String> {
    match update.text {
        Some(t) => after_send(mailbox, t),
        None => mailbox,
    }
}

/// Hands an update to the relay primitives: an interval that is named goes
/// into the slot, over whatever waits there; a text that is named goes into
/// the mailbox if there is room. A text for which there is none is not
/// delivered, which is no error: it is returned, and a later update will
/// bring the text of that time. A field that is not named changes nothing.
pub fn apply_update(
    update: Update,
    slot: &mut LatestSlot<u64>,
    mailbox: &mut Mailbox<String>,
) -> (undelivered: Option<String>)
    ensures
        final(slot)@ == slot_after(update, old(slot)@),
        final(mailbox)@ == mailbox_after(update, old(mailbox)@),
        undelivered == match update.text {
            Some(t) => if accepts(old(mailbox)@) {
                None
            } else {
                Some(t)
            },
            None => None,
        },
{
    let Update { text, freq } = update;
    match freq {
        Some(f) => {
            slot.write(f as u64);
        },
        None => {},
    }
    match text {
        Some(t) => match mailbox.try_send(t) {
            Ok(()) => None,
            Err(back) => Some(back),
        },
        None => None,
    }
}

/// Requests and updates alternate strictly: an update is awaited only when
/// a `Ready` went out, applied only when it came in, and the next request
/// is sent only when the update to the one before was applied.
pub proof fn lemma_client_alternates(state: ClientState, closing: bool, signal: ClientSignal)
    ensures
        client_next(state, closing, signal) == ClientState::AwaitUpdate ==> state
            == ClientState::SendRequest(Request::Ready) && signal == ClientSignal::Sent,
        client_next(state, closing, signal) == ClientState::Apply ==> state
            == ClientState::AwaitUpdate && signal == ClientSignal::Received,
        client_next(state, closing, signal) is SendRequest ==> state == ClientState::Apply
            && signal == ClientSignal::Applied,
{
}

/// A session that is over stays over, and as it ended: the session retries
/// nothing.
pub proof fn lemma_client_end_is_final(state: ClientState, closing: bool, signal: ClientSignal)
    requires
        client_demand(state) == ClientDemand::Stop,
    ensures
        client_next(state, closing, signal) == state,
{
}

/// Any failure that the driver reports to a running session, a timeout
/// among them, ends it with that very error.
pub proof fn lemma_client_failure_ends(state: ClientState, closing: bool, e: Error)
    requires
        client_demand(state) != ClientDemand::Stop,
    ensures
        client_next(state, closing, ClientSignal::Failed(e)) == ClientState::Failed(e),
{
}

/// Closing is no error: when this side's `Close` went out, or when the peer
/// closed, a running session ends as `ClosedByPeer`.
pub proof fn lemma_client_close_is_clean(state: ClientState, closing: bool)
    requires
        client_demand(state) != ClientDemand::Stop,
    ensures
        client_next(state, closing, ClientSignal::PeerClosed) == ClientState::ClosedByPeer,
        client_next(ClientState::SendRequest(Request::Close), closing, ClientSignal::Sent)
            == ClientState::ClosedByPeer,
        client_next(ClientState::Apply, true, ClientSignal::Applied) == ClientState::SendRequest(
            Request::Close,
        ),
{
}

/// An update that names no change leaves both relay primitives as they
/// were.
pub proof fn lemma_unchanged_update_applies_nothing(
    update: Update,
    slot: Option<u64>,
    mailbox: Seq<String>,
)
    requires
        update@ == UpdateView::unchanged(),
    ensures
        slot_after(update, slot) == slot,
        mailbox_after(update, mailbox) == mailbox,
{
}

/// A request that follows at once on an update is answered with
/// nothing new, and its answer leaves both relay primitives as they were:
/// what a reply names it names once.
pub proof fn lemma_repeated_reply_applies_nothing(
    told: Snapshot,
    update: Update,
    slot: Option<u64>,
    mailbox: Seq<String>,
)
    requires
        update@ == reply_for(told, told),
    ensures
        update@ == UpdateView::unchanged(),
        slot_after(update, slot) == slot,
        mailbox_after(update, mailbox) == mailbox,
{
}

} // verus!
