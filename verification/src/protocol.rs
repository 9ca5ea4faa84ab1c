//! The messages exchanged between clients and the relay.
//!
//! `TalkProtocol` is the message as the program holds it; `ProtocolView` is the
//! same message as a mathematical value, with texts as sequences of
//! characters. Contracts speak of the view.

use vstd::prelude::*;
use uuid::Uuid;

verus! {

/// One chat line as it travels through a room.
#[derive(Debug, PartialEq)]
pub struct TalkMessage {
    pub uuid: Uuid,
    pub username: String,
    pub text: String,
    pub room_id: i32,
    pub unixtime: u64,
}

/// The mathematical value of a `TalkMessage`.
pub struct MessageView {
    pub uuid: Uuid,
    pub username: Seq<char>,
    pub text: Seq<char>,
    pub room_id: i32,
    pub unixtime: u64,
}

impl View for TalkMessage {
    type V = MessageView;

    open spec fn view(&self) -> MessageView {
        MessageView {
            uuid: self.uuid,
            username: self.username@,
            text: self.text@,
            room_id: self.room_id,
            unixtime: self.unixtime,
        }
    }
}

impl Clone for TalkMessage {
    fn clone(&self) -> (copy: Self)
        ensures
            copy == *self,
    {
        TalkMessage {
            uuid: self.uuid,
            username: self.username.clone(),
            text: self.text.clone(),
            room_id: self.room_id,
            unixtime: self.unixtime,
        }
    }
}

/// Every message of the protocol, in both directions.
#[derive(Debug, PartialEq)]
#[allow(inconsistent_fields)]
pub enum TalkProtocol {
    JoinRoom { room_id: i32, uuid: Uuid, username: String, unixtime: u64 },
    LeaveRoom { room_id: i32, uuid: Uuid, username: String, unixtime: u64 },
    PostMessage { message: TalkMessage },
    ChangeName { uuid: Uuid, username: String, old_username: String, unixtime: u64 },
    Fetch { room_id: i32, limit: i64, fetch_before: u64 },
    UserJoined { uuid: Uuid, username: String, room_id: i32, unixtime: u64 },
    UserLeft { uuid: Uuid, username: String, room_id: i32, unixtime: u64 },
    UsernameChanged { uuid: Uuid, username: String, old_username: String, unixtime: u64 },
    History { text: Vec<TalkProtocol> },
    Error { code: u32, message: String },
    LocalError { message: String },
    LocalInformation { message: String },
}

/// The mathematical value of a `TalkProtocol`.
#[allow(inconsistent_fields)]
pub enum ProtocolView {
    JoinRoom { room_id: i32, uuid: Uuid, username: Seq<char>, unixtime: u64 },
    LeaveRoom { room_id: i32, uuid: Uuid, username: Seq<char>, unixtime: u64 },
    PostMessage { message: MessageView },
    ChangeName { uuid: Uuid, username: Seq<char>, old_username: Seq<char>, unixtime: u64 },
    Fetch { room_id: i32, limit: i64, fetch_before: u64 },
    UserJoined { uuid: Uuid, username: Seq<char>, room_id: i32, unixtime: u64 },
    UserLeft { uuid: Uuid, username: Seq<char>, room_id: i32, unixtime: u64 },
    UsernameChanged { uuid: Uuid, username: Seq<char>, old_username: Seq<char>, unixtime: u64 },
    History { text: Seq<ProtocolView> },
    Error { code: u32, message: Seq<char> },
    LocalError { message: Seq<char> },
    LocalInformation { message: Seq<char> },
}

/// The mathematical value of a message.
pub open spec fn value_of(message: &TalkProtocol) -> ProtocolView
    decreases message,
{
    match message {
        TalkProtocol::JoinRoom { room_id, uuid, username, unixtime } => ProtocolView::JoinRoom {
            room_id: *room_id,
            uuid: *uuid,
            username: username@,
            unixtime: *unixtime,
        },
        TalkProtocol::LeaveRoom { room_id, uuid, username, unixtime } => ProtocolView::LeaveRoom {
            room_id: *room_id,
            uuid: *uuid,
            username: username@,
            unixtime: *unixtime,
        },
        TalkProtocol::PostMessage { message } => ProtocolView::PostMessage { message: message@ },
        TalkProtocol::ChangeName { uuid, username, old_username, unixtime } => ProtocolView::ChangeName {
            uuid: *uuid,
            username: username@,
            old_username: old_username@,
            unixtime: *unixtime,
        },
        TalkProtocol::Fetch { room_id, limit, fetch_before } => ProtocolView::Fetch {
            room_id: *room_id,
            limit: *limit,
            fetch_before: *fetch_before,
        },
        TalkProtocol::UserJoined { uuid, username, room_id, unixtime } => ProtocolView::UserJoined {
            uuid: *uuid,
            username: username@,
            room_id: *room_id,
            unixtime: *unixtime,
        },
        TalkProtocol::UserLeft { uuid, username, room_id, unixtime } => ProtocolView::UserLeft {
            uuid: *uuid,
            username: username@,
            room_id: *room_id,
            unixtime: *unixtime,
        },
        TalkProtocol::UsernameChanged { uuid, username, old_username, unixtime } => ProtocolView::UsernameChanged {
            uuid: *uuid,
            username: username@,
            old_username: old_username@,
            unixtime: *unixtime,
        },
        TalkProtocol::History { text } => ProtocolView::History {
            text: Seq::new(
                text@.len(),
                |i: int| if 0 <= i < text@.len() { value_of(&text@[i]) } else { arbitrary() },
            ),
        },
        TalkProtocol::Error { code, message } => ProtocolView::Error {
            code: *code,
            message: message@,
        },
        TalkProtocol::LocalError { message } => ProtocolView::LocalError { message: message@ },
        TalkProtocol::LocalInformation { message } => ProtocolView::LocalInformation {
            message: message@,
        },
    }
}

impl View for TalkProtocol {
    type V = ProtocolView;

    open spec fn view(&self) -> ProtocolView {
        value_of(self)
    }
}

/// The mathematical values of a list of messages.
pub open spec fn views(messages: Seq<TalkProtocol>) -> Seq<ProtocolView> {
    Seq::new(messages.len(), |i: int| messages[i]@)
}

/// The values of a list with one more message are the values of the list
/// with one more value.
pub proof fn lemma_views_push(messages: Seq<TalkProtocol>, message: TalkProtocol)
    ensures
        views(messages.push(message)) == views(messages).push(message@),
        views(Seq::<TalkProtocol>::empty()) == Seq::<ProtocolView>::empty(),
{
    assert(views(messages.push(message)) =~= views(messages).push(message@));
    assert(views(Seq::<TalkProtocol>::empty()) =~= Seq::<ProtocolView>::empty());
}

/// The value of a history is the values of its entries.
pub proof fn lemma_history_view(text: Vec<TalkProtocol>)
    ensures
        (TalkProtocol::History { text })@ == (ProtocolView::History { text: views(text@) }),
{
    assert((TalkProtocol::History { text })@->History_text =~= views(text@));
}

impl Clone for TalkProtocol {
    fn clone(&self) -> (copy: Self)
        ensures
            copy@ == self@,
        decreases self,
    {
        match self {
            TalkProtocol::JoinRoom { room_id, uuid, username, unixtime } => TalkProtocol::JoinRoom {
                room_id: *room_id,
                uuid: *uuid,
                username: username.clone(),
                unixtime: *unixtime,
            },
            TalkProtocol::LeaveRoom { room_id, uuid, username, unixtime } => TalkProtocol::LeaveRoom {
                room_id: *room_id,
                uuid: *uuid,
                username: username.clone(),
                unixtime: *unixtime,
            },
            TalkProtocol::PostMessage { message } => TalkProtocol::PostMessage {
                message: message.clone(),
            },
            TalkProtocol::ChangeName { uuid, username, old_username, unixtime } => TalkProtocol::ChangeName {
                uuid: *uuid,
                username: username.clone(),
                old_username: old_username.clone(),
                unixtime: *unixtime,
            },
            TalkProtocol::Fetch { room_id, limit, fetch_before } => TalkProtocol::Fetch {
                room_id: *room_id,
                limit: *limit,
                fetch_before: *fetch_before,
            },
            TalkProtocol::UserJoined { uuid, username, room_id, unixtime } => TalkProtocol::UserJoined {
                uuid: *uuid,
                username: username.clone(),
                room_id: *room_id,
                unixtime: *unixtime,
            },
            TalkProtocol::UserLeft { uuid, username, room_id, unixtime } => TalkProtocol::UserLeft {
                uuid: *uuid,
                username: username.clone(),
                room_id: *room_id,
                unixtime: *unixtime,
            },
            TalkProtocol::UsernameChanged { uuid, username, old_username, unixtime } => TalkProtocol::UsernameChanged {
                uuid: *uuid,
                username: username.clone(),
                old_username: old_username.clone(),
                unixtime: *unixtime,
            },
            TalkProtocol::History { text } => {
                let mut entries: Vec<TalkProtocol> = Vec::new();
                let mut i: usize = 0;
                while i < text.len()
                    invariant
                        i <= text.len(),
                        entries.len() == i,
                        forall|k: int| 0 <= k < i ==> entries@[k]@ == text@[k]@,
                        forall|k: int| 0 <= k < text.len() ==> decreases_to!(self => text@[k]),
                    decreases text.len() - i,
                {
                    let entry = text[i].clone();
                    entries.push(entry);
                    i += 1;
                }
                let copy = TalkProtocol::History { text: entries };
                assert(copy@->History_text =~= self@->History_text);
                copy
            },
            TalkProtocol::Error { code, message } => TalkProtocol::Error {
                code: *code,
                message: message.clone(),
            },
            TalkProtocol::LocalError { message } => TalkProtocol::LocalError {
                message: message.clone(),
            },
            TalkProtocol::LocalInformation { message } => TalkProtocol::LocalInformation {
                message: message.clone(),
            },
        }
    }
}

impl ProtocolView {
    /// Whether this is a message that a client may send to the relay. The
    /// others are for the relay to send, or for a client to show.
    pub open spec fn is_request(self) -> bool {
        self is JoinRoom || self is LeaveRoom || self is PostMessage || self is ChangeName
            || self is Fetch
    }
}

impl TalkProtocol {
    /// Whether this is a message that a client may send to the relay.
    pub fn is_client_request(&self) -> (request: bool)
        ensures
            request == self@.is_request(),
    {
        match self {
            TalkProtocol::JoinRoom { .. } => true,
            TalkProtocol::LeaveRoom { .. } => true,
            TalkProtocol::PostMessage { .. } => true,
            TalkProtocol::ChangeName { .. } => true,
            TalkProtocol::Fetch { .. } => true,
            _ => false,
        }
    }
}

} // verus!
