//! Message dispatch: what the relay does with one decoded inbound message.
//!
//! Dispatch is a function of the message alone. It holds no state and performs
//! nothing: it names the room switch, the publication or the history request
//! that the message calls for.

use vstd::prelude::*;
use crate::channel::PRESENCE_ROOM;
use crate::protocol::{ProtocolView, TalkProtocol};

verus! {

/// The work that one inbound message calls for.
#[derive(Debug, PartialEq)]
pub enum Dispatch {
    /// Switch the connection's subscription to `room_id`, wait for the
    /// acknowledgement, and on success publish `announcement` to that room.
    Join { room_id: i32, announcement: TalkProtocol },
    /// Publish `message` to the channel of `room_id`.
    Publish { room_id: i32, message: TalkProtocol },
    /// Ask the history store for up to `limit` messages of `room_id` older than
    /// `before`, and hand the answer to the requesting connection alone.
    FetchHistory { room_id: i32, limit: i64, before: u64 },
    /// The message is one that only the relay may send: drop it.
    Violation,
}

/// The mathematical value of a `Dispatch`.
pub enum DispatchView {
    Join { room_id: i32, announcement: ProtocolView },
    Publish { room_id: i32, message: ProtocolView },
    FetchHistory { room_id: i32, limit: i64, before: u64 },
    Violation,
}

impl View for Dispatch {
    type V = DispatchView;

    open spec fn view(&self) -> DispatchView {
        match self {
            Dispatch::Join { room_id, announcement } => DispatchView::Join {
                room_id: *room_id,
                announcement: announcement@,
            },
            Dispatch::Publish { room_id, message } => DispatchView::Publish {
                room_id: *room_id,
                message: message@,
            },
            Dispatch::FetchHistory { room_id, limit, before } => DispatchView::FetchHistory {
                room_id: *room_id,
                limit: *limit,
                before: *before,
            },
            Dispatch::Violation => DispatchView::Violation,
        }
    }
}

/// The dispatch table.
///
/// A join switches rooms and then announces the arrival there. A leave only
/// announces the departure: the subscription stays until the next join or the
/// end of the session. A posted message goes unchanged to the room it names. A
/// name change goes to the presence room, wherever the sender is. A fetch goes to the
/// history store. Everything else is a violation.
pub open spec fn dispatch_of(msg: ProtocolView) -> DispatchView {
    match msg {
        ProtocolView::JoinRoom { room_id, uuid, username, unixtime } => DispatchView::Join {
            room_id,
            announcement: ProtocolView::UserJoined { uuid, username, room_id, unixtime },
        },
        ProtocolView::LeaveRoom { room_id, uuid, username, unixtime } => DispatchView::Publish {
            room_id,
            message: ProtocolView::UserLeft { uuid, username, room_id, unixtime },
        },
        ProtocolView::PostMessage { message } => DispatchView::Publish {
            room_id: message.room_id,
            message: msg,
        },
        ProtocolView::ChangeName { uuid, username, old_username, unixtime } => DispatchView::Publish {
            room_id: PRESENCE_ROOM,
            message: ProtocolView::UsernameChanged { uuid, username, old_username, unixtime },
        },
        ProtocolView::Fetch { room_id, limit, fetch_before } => DispatchView::FetchHistory {
            room_id,
            limit,
            before: fetch_before,
        },
        _ => DispatchView::Violation,
    }
}

/// Decides what one decoded inbound message calls for.
pub fn dispatch(msg: TalkProtocol) -> (work: Dispatch)
    ensures
        work@ == dispatch_of(msg@),
{
    match msg {
        TalkProtocol::JoinRoom { room_id, uuid, username, unixtime } => Dispatch::Join {
            room_id,
            announcement: TalkProtocol::UserJoined { uuid, username, room_id, unixtime },
        },
        TalkProtocol::LeaveRoom { room_id, uuid, username, unixtime } => Dispatch::Publish {
            room_id,
            message: TalkProtocol::UserLeft { uuid, username, room_id, unixtime },
        },
        TalkProtocol::PostMessage { message } => Dispatch::Publish {
            room_id: message.room_id,
            message: TalkProtocol::PostMessage { message },
        },
        TalkProtocol::ChangeName { uuid, username, old_username, unixtime } => Dispatch::Publish {
            room_id: PRESENCE_ROOM,
            message: TalkProtocol::UsernameChanged { uuid, username, old_username, unixtime },
        },
        TalkProtocol::Fetch { room_id, limit, fetch_before } => Dispatch::FetchHistory {
            room_id,
            limit,
            before: fetch_before,
        },
        _ => Dispatch::Violation,
    }
}

/// Only a join touches the subscription, so a leave does not; exactly the
/// messages that are no requests are violations; and a name change goes to
/// the presence room.
pub proof fn lemma_dispatch_shape(msg: ProtocolView)
    ensures
        dispatch_of(msg) is Join <==> msg is JoinRoom,
        dispatch_of(msg) is Violation <==> !msg.is_request(),
        msg is LeaveRoom ==> dispatch_of(msg) is Publish,
        msg is ChangeName ==> dispatch_of(msg)->Publish_room_id == PRESENCE_ROOM,
{
}

} // verus!
