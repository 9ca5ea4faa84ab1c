//! The state of a chat client.

use vstd::prelude::*;
use vstd::string::StringExecFns;
use uuid::Uuid;
use crate::command::{input_turn, join_room, leave_room, parse_input};
use crate::identity::random_uuid;
use crate::protocol::{lemma_history_view, lemma_views_push, views, ProtocolView, TalkProtocol};
use crate::text::{chars_of, trim, trim_range};

verus! {

/// The name a client has until it chooses one.
pub const DEFAULT_USERNAME: &'static str = "Client";

/// The room a client is in until it chooses one.
pub const DEFAULT_ROOM: i32 = 0;

/// A chat client: what it shows, what is being typed, and who and where it
/// is.
#[derive(Debug)]
pub struct ChatClient {
    /// The messages on display, oldest first.
    pub messages: Vec<TalkProtocol>,
    /// The line being typed.
    pub input_text: String,
    pub username: String,
    pub room_id: i32,
    /// Whether the client has a connection to send on.
    pub connected: bool,
    pub uuid: Uuid,
}

/// The mathematical value of a `ChatClient`.
pub struct ClientView {
    pub messages: Seq<ProtocolView>,
    pub input_text: Seq<char>,
    pub username: Seq<char>,
    pub room_id: i32,
    pub connected: bool,
    pub uuid: Uuid,
}

impl View for ChatClient {
    type V = ClientView;

    open spec fn view(&self) -> ClientView {
        ClientView {
            messages: views(self.messages@),
            input_text: self.input_text@,
            username: self.username@,
            room_id: self.room_id,
            connected: self.connected,
            uuid: self.uuid,
        }
    }
}

impl ChatClient {
    /// A client that is not connected yet: nothing on display, nothing typed,
    /// the default name and room, and the identity given.
    pub fn new(uuid: Uuid) -> (client: Self)
        ensures
            client@ == (ClientView {
                messages: Seq::empty(),
                input_text: Seq::empty(),
                username: DEFAULT_USERNAME@,
                room_id: DEFAULT_ROOM,
                connected: false,
                uuid,
            }),
    {
        let client = ChatClient {
            messages: Vec::new(),
            input_text: String::new(),
            username: String::from_str(DEFAULT_USERNAME),
            room_id: DEFAULT_ROOM,
            connected: false,
            uuid,
        };
        assert(client@.messages =~= Seq::empty());
        client
    }
}

/// Where the relay is.
pub const SERVER_URL: &'static str = "ws://localhost:8080";

/// What happens to a client.
#[derive(Debug, PartialEq)]
pub enum Msg {
    /// Connect to the relay.
    Connect,
    /// Leave the relay.
    Disconnect,
    /// The typed line was entered.
    SendMessage,
    /// The typed line changed.
    UpdateInput(String),
    UpdateUsername(String),
    UpdateRoomId(String),
    /// The relay sent a message.
    ReceivedMessage(TalkProtocol),
    /// The connection ended.
    ConnectionClosed,
}

/// The mathematical value of a `Msg`.
pub enum MsgView {
    Connect,
    Disconnect,
    SendMessage,
    UpdateInput(Seq<char>),
    UpdateUsername(Seq<char>),
    UpdateRoomId(Seq<char>),
    ReceivedMessage(ProtocolView),
    ConnectionClosed,
}

impl View for Msg {
    type V = MsgView;

    open spec fn view(&self) -> MsgView {
        match self {
            Msg::Connect => MsgView::Connect,
            Msg::Disconnect => MsgView::Disconnect,
            Msg::SendMessage => MsgView::SendMessage,
            Msg::UpdateInput(text) => MsgView::UpdateInput(text@),
            Msg::UpdateUsername(text) => MsgView::UpdateUsername(text@),
            Msg::UpdateRoomId(text) => MsgView::UpdateRoomId(text@),
            Msg::ReceivedMessage(message) => MsgView::ReceivedMessage(message@),
            Msg::ConnectionClosed => MsgView::ConnectionClosed,
        }
    }
}

/// What the owner of a client is to do after an update.
#[derive(Debug, PartialEq)]
pub enum Effect {
    /// Nothing.
    Nothing,
    /// Open the connection to the relay, and call `opened` when it stands.
    Open,
    /// Send these messages, in order.
    Send(Vec<TalkProtocol>),
    /// Send this message and close the connection.
    Close(TalkProtocol),
}

/// The mathematical value of an `Effect`.
pub enum EffectView {
    Nothing,
    Open,
    Send(Seq<ProtocolView>),
    Close(ProtocolView),
}

impl View for Effect {
    type V = EffectView;

    open spec fn view(&self) -> EffectView {
        match self {
            Effect::Nothing => EffectView::Nothing,
            Effect::Open => EffectView::Open,
            Effect::Send(messages) => EffectView::Send(views(messages@)),
            Effect::Close(message) => EffectView::Close(message@),
        }
    }
}

/// The outcome of an update: whether to draw the client again, and what else
/// to do.
#[derive(Debug, PartialEq)]
pub struct Update {
    pub redraw: bool,
    pub effect: Effect,
}

/// What an event does to a client at the time `unixtime`: the client
/// afterwards, whether to draw it again, and what else to do.
///
/// * Connecting asks for the connection unless there is one; only that case
///   needs no drawing.
/// * Disconnecting says goodbye to the room where there is a connection, and
///   leaves the client unconnected.
/// * An entered line is read where there is a connection and the line holds
///   more than white space; the line is then empty.
/// * A received message is put on display.
pub open spec fn update_of(client: ClientView, msg: MsgView, unixtime: u64) -> (
    ClientView,
    bool,
    EffectView,
) {
    match msg {
        MsgView::Connect => if client.connected {
            (client, false, EffectView::Nothing)
        } else {
            (client, true, EffectView::Open)
        },
        MsgView::Disconnect => (
            ClientView { connected: false, ..client },
            true,
            if client.connected {
                EffectView::Close(
                    ProtocolView::LeaveRoom {
                        room_id: client.room_id,
                        uuid: client.uuid,
                        username: client.username,
                        unixtime,
                    },
                )
            } else {
                EffectView::Nothing
            },
        ),
        MsgView::SendMessage => if client.connected && trim(client.input_text).len() > 0 {
            let turn = input_turn(client, unixtime);
            (ClientView { input_text: Seq::empty(), ..turn.0 }, true, EffectView::Send(turn.1))
        } else {
            (client, true, EffectView::Nothing)
        },
        MsgView::UpdateInput(text) => (
            ClientView { input_text: text, ..client },
            true,
            EffectView::Nothing,
        ),
        MsgView::UpdateUsername(_) => (client, true, EffectView::Nothing),
        MsgView::UpdateRoomId(_) => (client, true, EffectView::Nothing),
        MsgView::ReceivedMessage(message) => (
            ClientView { messages: client.messages.push(message), ..client },
            true,
            EffectView::Nothing,
        ),
        MsgView::ConnectionClosed => (
            ClientView { connected: false, ..client },
            true,
            EffectView::Nothing,
        ),
    }
}

/// The messages that one message of the relay puts on display: the entries
/// of a history, each by itself, and any other message as it is.
pub open spec fn inbound_of(message: ProtocolView) -> Seq<ProtocolView> {
    match message {
        ProtocolView::History { text } => text,
        _ => seq![message],
    }
}

/// Takes apart what the relay sent into the messages to put on display.
pub fn inbound(message: TalkProtocol) -> (shown: Vec<TalkProtocol>)
    ensures
        views(shown@) == inbound_of(message@),
{
    match message {
        TalkProtocol::History { text } => {
            proof {
                lemma_history_view(text);
            }
            text
        },
        other => {
            let mut shown: Vec<TalkProtocol> = Vec::new();
            shown.push(other);
            assert(views(shown@) =~= seq![other@]);
            shown
        },
    }
}

impl ChatClient {
    /// A client with a new identity, drawn at random; everything else as in
    /// `new`.
    pub fn create() -> (client: Self)
        ensures
            client@ == (ClientView {
                messages: Seq::empty(),
                input_text: Seq::empty(),
                username: DEFAULT_USERNAME@,
                room_id: DEFAULT_ROOM,
                connected: false,
                uuid: client.uuid,
            }),
    {
        ChatClient::new(random_uuid())
    }

    /// The connection stands: the client is connected, and asks to enter its
    /// room.
    pub fn opened(&mut self, unixtime: u64) -> (request: TalkProtocol)
        ensures
            final(self)@ == (ClientView { connected: true, ..old(self)@ }),
            request@ == (ProtocolView::JoinRoom {
                room_id: old(self)@.room_id,
                uuid: old(self)@.uuid,
                username: old(self)@.username,
                unixtime,
            }),
    {
        self.connected = true;
        join_room(self.room_id, self.uuid, self.username.clone(), unixtime)
    }

    /// Applies one event to the client, at the time `unixtime`.
    pub fn update(&mut self, msg: Msg, unixtime: u64) -> (update: Update)
        ensures
            (final(self)@, update.redraw, update.effect@) == update_of(old(self)@, msg@, unixtime),
    {
        match msg {
            Msg::Connect => {
                if self.connected {
                    return Update { redraw: false, effect: Effect::Nothing };
                }
                Update { redraw: true, effect: Effect::Open }
            },
            Msg::Disconnect => {
                let effect = if self.connected {
                    Effect::Close(
                        leave_room(self.room_id, self.uuid, self.username.clone(), unixtime),
                    )
                } else {
                    Effect::Nothing
                };
                self.connected = false;
                Update { redraw: true, effect }
            },
            Msg::SendMessage => {
                if !self.connected {
                    return Update { redraw: true, effect: Effect::Nothing };
                }
                let chars = chars_of(self.input_text.as_str());
                assert(chars@.subrange(0, chars.len() as int) =~= chars@);
                let (from, to) = trim_range(&chars, 0, chars.len());
                if from == to {
                    return Update { redraw: true, effect: Effect::Nothing };
                }
                let outbox = parse_input(self, unixtime);
                self.input_text = String::new();
                Update { redraw: true, effect: Effect::Send(outbox) }
            },
            Msg::UpdateInput(text) => {
                self.input_text = text;
                Update { redraw: true, effect: Effect::Nothing }
            },
            Msg::UpdateUsername(_) => Update { redraw: true, effect: Effect::Nothing },
            Msg::UpdateRoomId(_) => Update { redraw: true, effect: Effect::Nothing },
            Msg::ReceivedMessage(message) => {
                proof {
                    lemma_views_push(self.messages@, message);
                }
                self.messages.push(message);
                Update { redraw: true, effect: Effect::Nothing }
            },
            Msg::ConnectionClosed => {
                self.connected = false;
                Update { redraw: true, effect: Effect::Nothing }
            },
        }
    }
}

} // verus!
