//! The session of one connection.
//!
//! A session processes its inbound frames strictly one after another: it takes
//! no new frame while the room switch, the publication or the history request
//! of the last one is still open. It forwards what the broker delivers, in arrival order, and
//! it ends when its transport ends. The session decides; its owner reads the
//! transport, talks to the broker, and reports back what happened.

use vstd::prelude::*;
use crate::dispatch::{dispatch, dispatch_of, Dispatch, DispatchView};
use crate::error::{BrokerOperation, RelayError};
use crate::protocol::{ProtocolView, TalkProtocol};

verus! {

/// What the owner of a session is to do next.
#[derive(Debug, PartialEq)]
pub enum Action {
    /// Nothing.
    Idle,
    /// Ask the subscription manager to switch to `room_id`, and report its
    /// acknowledgement with `on_switch_ack`.
    SwitchRoom { room_id: i32 },
    /// Publish `message` on the channel of `room_id`, and report the outcome
    /// with `on_publish_result`.
    Publish { room_id: i32, message: TalkProtocol },
    /// Ask the history store, and report its answer with `on_history`.
    FetchHistory { room_id: i32, limit: i64, before: u64 },
    /// Write `message` to this connection's transport, and to no other.
    Send { message: TalkProtocol },
    /// Log `error`; the session goes on.
    Report { error: RelayError },
    /// End the session: cancel its subscription manager, close its delivery
    /// queue, and log `cause` where there is one.
    Teardown { cause: Option<RelayError> },
}

/// The mathematical value of an `Action`.
pub enum ActionView {
    Idle,
    SwitchRoom { room_id: i32 },
    Publish { room_id: i32, message: ProtocolView },
    FetchHistory { room_id: i32, limit: i64, before: u64 },
    Send { message: ProtocolView },
    Report { error: RelayError },
    Teardown { cause: Option<RelayError> },
}

impl View for Action {
    type V = ActionView;

    open spec fn view(&self) -> ActionView {
        match self {
            Action::Idle => ActionView::Idle,
            Action::SwitchRoom { room_id } => ActionView::SwitchRoom { room_id: *room_id },
            Action::Publish { room_id, message } => ActionView::Publish {
                room_id: *room_id,
                message: message@,
            },
            Action::FetchHistory { room_id, limit, before } => ActionView::FetchHistory {
                room_id: *room_id,
                limit: *limit,
                before: *before,
            },
            Action::Send { message } => ActionView::Send { message: message@ },
            Action::Report { error } => ActionView::Report { error: *error },
            Action::Teardown { cause } => ActionView::Teardown { cause: *cause },
        }
    }
}

impl ActionView {
    /// Whether the action reaches the broker, and through it other
    /// connections.
    pub open spec fn touches_broker(self) -> bool {
        self is SwitchRoom || self is Publish
    }
}

/// Where a session stands.
pub enum Phase {
    /// Ready for the next inbound frame.
    Ready,
    /// A join waits for the acknowledgement of its room switch; `announcement`
    /// is published to `room_id` when it comes.
    Switching { room_id: i32, announcement: ProtocolView },
    /// A publication is under way; its outcome is waited for.
    Publishing,
    /// A fetch waits for the history store.
    Fetching,
    /// The session has ended.
    Closed,
}

/// The mathematical value of a `Session`.
pub struct SessionView {
    pub phase: Phase,
    /// The room of the last acknowledged switch, if the last switch was
    /// acknowledged with success.
    pub room: Option<i32>,
}

/// The session of one connection.
#[derive(Debug)]
pub struct Session {
    closed: bool,
    switching: Option<(i32, TalkProtocol)>,
    publishing: bool,
    fetching: bool,
    room: Option<i32>,
}

impl View for Session {
    type V = SessionView;

    closed spec fn view(&self) -> SessionView {
        SessionView {
            phase: if self.closed {
                Phase::Closed
            } else if let Some(join) = self.switching {
                Phase::Switching { room_id: join.0, announcement: join.1@ }
            } else if self.publishing {
                Phase::Publishing
            } else if self.fetching {
                Phase::Fetching
            } else {
                Phase::Ready
            },
            room: self.room,
        }
    }
}

/// What a ready session does with a frame: the next phase and the action.
/// A frame that did not decode is reported and dropped, and so is a message
/// that only the relay may send; neither ends the session nor reaches the
/// broker. Every other frame leaves the session waiting for what it asked
/// for, so that no frame is taken before the one before it is done.
pub open spec fn frame_step(frame: Option<ProtocolView>) -> (Phase, ActionView) {
    match frame {
        None => (Phase::Ready, ActionView::Report { error: RelayError::Decode }),
        Some(msg) => match dispatch_of(msg) {
            DispatchView::Join { room_id, announcement } => (
                Phase::Switching { room_id, announcement },
                ActionView::SwitchRoom { room_id },
            ),
            DispatchView::Publish { room_id, message } => (
                Phase::Publishing,
                ActionView::Publish { room_id, message },
            ),
            DispatchView::FetchHistory { room_id, limit, before } => (
                Phase::Fetching,
                ActionView::FetchHistory { room_id, limit, before },
            ),
            DispatchView::Violation => (
                Phase::Ready,
                ActionView::Report { error: RelayError::ProtocolViolation },
            ),
        },
    }
}

/// What a session does with the acknowledgement of its room switch: the
/// next phase, the room it is in, and the action. On success the arrival is
/// announced in the new room. On failure nothing is published, the error is
/// reported, and the session is in no room: the old subscription is gone.
pub open spec fn ack_step(room_id: i32, announcement: ProtocolView, ack: Result<(), RelayError>) -> (
    Phase,
    Option<i32>,
    ActionView,
) {
    match ack {
        Ok(_) => (
            Phase::Publishing,
            Some(room_id),
            ActionView::Publish { room_id, message: announcement },
        ),
        Err(error) => (Phase::Ready, None, ActionView::Report { error }),
    }
}

/// What a session does with the outcome of a publication: a failure is
/// reported and not retried.
pub open spec fn publish_step(published: bool) -> ActionView {
    if published {
        ActionView::Idle
    } else {
        ActionView::Report { error: RelayError::Broker(BrokerOperation::Publish) }
    }
}

/// The view of an optional message.
pub open spec fn view_of(frame: Option<TalkProtocol>) -> Option<ProtocolView> {
    match frame {
        Some(msg) => Some(msg@),
        None => None,
    }
}

impl Session {
    /// The session of a connection that was just accepted.
    pub fn new() -> (session: Self)
        ensures
            session@ == (SessionView { phase: Phase::Ready, room: None }),
    {
        Session { closed: false, switching: None, publishing: false, fetching: false, room: None }
    }

    /// Whether the session takes the next inbound frame.
    pub fn is_ready(&self) -> (ready: bool)
        ensures
            ready == self@.phase is Ready,
    {
        !self.closed && self.switching.is_none() && !self.publishing && !self.fetching
    }

    /// Whether the session waits for the acknowledgement of a room switch.
    pub fn is_switching(&self) -> (switching: bool)
        ensures
            switching == self@.phase is Switching,
    {
        !self.closed && self.switching.is_some()
    }

    /// Whether the session waits for the outcome of a publication.
    pub fn is_publishing(&self) -> (publishing: bool)
        ensures
            publishing == self@.phase is Publishing,
    {
        !self.closed && self.switching.is_none() && self.publishing
    }

    /// Whether the session waits for the history store.
    pub fn is_fetching(&self) -> (fetching: bool)
        ensures
            fetching == self@.phase is Fetching,
    {
        !self.closed && self.switching.is_none() && !self.publishing && self.fetching
    }

    /// Whether the session has ended.
    pub fn is_closed(&self) -> (closed: bool)
        ensures
            closed == self@.phase is Closed,
    {
        self.closed
    }

    /// The room of the last switch, if it was acknowledged with success.
    pub fn room(&self) -> (room: Option<i32>)
        ensures
            room == self@.room,
    {
        self.room
    }

    /// Takes one inbound frame: the decoded message, or `None` where the frame
    /// did not decode.
    pub fn on_frame(&mut self, frame: Option<TalkProtocol>) -> (action: Action)
        requires
            old(self)@.phase is Ready,
        ensures
            final(self)@.phase == frame_step(view_of(frame)).0,
            final(self)@.room == old(self)@.room,
            action@ == frame_step(view_of(frame)).1,
    {
        match frame {
            None => Action::Report { error: RelayError::Decode },
            Some(msg) => match dispatch(msg) {
                Dispatch::Join { room_id, announcement } => {
                    self.switching = Some((room_id, announcement));
                    Action::SwitchRoom { room_id }
                },
                Dispatch::Publish { room_id, message } => {
                    self.publishing = true;
                    Action::Publish { room_id, message }
                },
                Dispatch::FetchHistory { room_id, limit, before } => {
                    self.fetching = true;
                    Action::FetchHistory { room_id, limit, before }
                },
                Dispatch::Violation => Action::Report { error: RelayError::ProtocolViolation },
            },
        }
    }

    /// Takes the acknowledgement of the room switch that the session waits
    /// for. On success the arrival is announced in the new room. On failure
    /// nothing is published, the error is reported, and the session is in no
    /// room: the old subscription is gone.
    pub fn on_switch_ack(&mut self, ack: Result<(), RelayError>) -> (action: Action)
        requires
            old(self)@.phase is Switching,
        ensures
            (final(self)@.phase, final(self)@.room, action@) == ack_step(
                old(self)@.phase->Switching_room_id,
                old(self)@.phase->Switching_announcement,
                ack,
            ),
    {
        self.fetching = false;
        self.publishing = false;
        match self.switching.take() {
            Some((room_id, announcement)) => match ack {
                Ok(_) => {
                    self.room = Some(room_id);
                    self.publishing = true;
                    Action::Publish { room_id, message: announcement }
                },
                Err(error) => {
                    self.room = None;
                    Action::Report { error }
                },
            },
            None => Action::Idle,
        }
    }

    /// Takes the outcome of the publication that the session waits for. A
    /// failure is reported and not retried; either way the session is ready
    /// for the next frame, and not before.
    pub fn on_publish_result(&mut self, published: bool) -> (action: Action)
        requires
            old(self)@.phase is Publishing,
        ensures
            final(self)@ == (SessionView { phase: Phase::Ready, room: old(self)@.room }),
            action@ == publish_step(published),
    {
        self.publishing = false;
        self.fetching = false;
        if published {
            Action::Idle
        } else {
            Action::Report { error: RelayError::Broker(BrokerOperation::Publish) }
        }
    }

    /// Takes the answer of the history store and sends it, as one history
    /// message, to this connection alone.
    pub fn on_history(&mut self, entries: Vec<TalkProtocol>) -> (action: Action)
        requires
            old(self)@.phase is Fetching,
        ensures
            final(self)@ == (SessionView { phase: Phase::Ready, room: old(self)@.room }),
            action == (Action::Send { message: TalkProtocol::History { text: entries } }),
    {
        self.fetching = false;
        self.publishing = false;
        Action::Send { message: TalkProtocol::History { text: entries } }
    }

    /// Takes one delivery of the broker: the decoded payload, or `None` where
    /// it did not decode. An open session forwards the message to its
    /// transport, whatever else it waits for; a closed one forwards nothing.
    pub fn on_delivery(&self, delivery: Option<TalkProtocol>) -> (action: Action)
        ensures
            action@ == if self@.phase is Closed {
                ActionView::Idle
            } else {
                match delivery {
                    Some(message) => ActionView::Send { message: message@ },
                    None => ActionView::Report { error: RelayError::Decode },
                }
            },
    {
        if self.closed {
            return Action::Idle;
        }
        match delivery {
            Some(message) => Action::Send { message },
            None => Action::Report { error: RelayError::Decode },
        }
    }

    /// The transport was closed by the peer: the session ends.
    pub fn on_transport_closed(&mut self) -> (action: Action)
        ensures
            final(self)@ == (SessionView { phase: Phase::Closed, room: None }),
            action@ == if old(self)@.phase is Closed {
                ActionView::Idle
            } else {
                ActionView::Teardown { cause: None }
            },
    {
        self.end(None)
    }

    /// The transport failed while reading or writing: the session ends, and
    /// the failure is the cause.
    pub fn on_transport_failed(&mut self) -> (action: Action)
        ensures
            final(self)@ == (SessionView { phase: Phase::Closed, room: None }),
            action@ == if old(self)@.phase is Closed {
                ActionView::Idle
            } else {
                ActionView::Teardown { cause: Some(RelayError::Connection) }
            },
    {
        self.end(Some(RelayError::Connection))
    }

    /// The broker was lost for good: the session ends, and `operation` is the
    /// cause.
    pub fn on_broker_lost(&mut self, operation: BrokerOperation) -> (action: Action)
        ensures
            final(self)@ == (SessionView { phase: Phase::Closed, room: None }),
            action@ == if old(self)@.phase is Closed {
                ActionView::Idle
            } else {
                ActionView::Teardown { cause: Some(RelayError::Broker(operation)) }
            },
    {
        self.end(Some(RelayError::Broker(operation)))
    }

    fn end(&mut self, cause: Option<RelayError>) -> (action: Action)
        ensures
            final(self)@ == (SessionView { phase: Phase::Closed, room: None }),
            action@ == if old(self)@.phase is Closed {
                ActionView::Idle
            } else {
                ActionView::Teardown { cause }
            },
    {
        let was_closed = self.closed;
        self.closed = true;
        self.switching = None;
        self.publishing = false;
        self.fetching = false;
        self.room = None;
        if was_closed {
            Action::Idle
        } else {
            Action::Teardown { cause }
        }
    }
}

} // verus!
