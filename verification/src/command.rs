//! The command line of a chat client.
//!
//! A line that does not begin with `/` is a chat message. A line that does is a
//! command: `/name`, `/room`, `/clear`, `/help` or `/fetch`. Reading a line
//! changes the client and yields the messages to send; what cannot be read is
//! answered on the client's own display and never sent.

use vstd::prelude::*;
use vstd::string::{StrSliceExecFns, StringExecFns};
use uuid::Uuid;
use crate::client::{ChatClient, ClientView};
use crate::protocol::{lemma_views_push, views, MessageView, ProtocolView, TalkMessage, TalkProtocol};
use crate::text::{
    byte_len, chars_of, has_prefix, is_word, parse_number, parse_range, skip_prefixes, starts_with,
    strip_prefixes, trim, trim_range, utf8_len, NumberError,
};

verus! {

/// A line of this many bytes or more is too long.
pub const MESSAGE_LENGTH: usize = 250;

/// A name of more than this many bytes is too long.
pub const USERNAME_LENGTH: usize = 15;

/// What `/help` shows.
pub const HELP_TEXT: &'static str =
    "/help to show this command\n        /name {string} changes the name to the given string\n        /room {int} changes the room to the given number\n        /fetch {number} fetches the given number of messages up from the first message in your history\n        /clear clears the chat";

/// The request to enter a room.
pub fn join_room(room_id: i32, uuid: Uuid, username: String, unixtime: u64) -> (request: TalkProtocol)
    ensures
        request == (TalkProtocol::JoinRoom { room_id, uuid, username, unixtime }),
{
    TalkProtocol::JoinRoom { room_id, uuid, username, unixtime }
}

/// The notice of leaving a room.
pub fn leave_room(room_id: i32, uuid: Uuid, username: String, unixtime: u64) -> (notice: TalkProtocol)
    ensures
        notice == (TalkProtocol::LeaveRoom { room_id, uuid, username, unixtime }),
{
    TalkProtocol::LeaveRoom { room_id, uuid, username, unixtime }
}

/// The time that a displayed message carries, if it is one that does.
pub open spec fn timestamp_of(message: ProtocolView) -> Option<u64> {
    match message {
        ProtocolView::PostMessage { message } => Some(message.unixtime),
        ProtocolView::UserJoined { unixtime, .. } => Some(unixtime),
        ProtocolView::UserLeft { unixtime, .. } => Some(unixtime),
        ProtocolView::UsernameChanged { unixtime, .. } => Some(unixtime),
        _ => None,
    }
}

/// The time of the first message that carries one, or `otherwise` where none
/// does.
pub open spec fn first_timestamp(messages: Seq<ProtocolView>, otherwise: u64) -> u64
    decreases messages.len(),
{
    if messages.len() == 0 {
        otherwise
    } else {
        match timestamp_of(messages[0]) {
            Some(unixtime) => unixtime,
            None => first_timestamp(messages.skip(1), otherwise),
        }
    }
}

fn message_timestamp(message: &TalkProtocol) -> (unixtime: Option<u64>)
    ensures
        unixtime == timestamp_of(message@),
{
    match message {
        TalkProtocol::PostMessage { message } => Some(message.unixtime),
        TalkProtocol::UserJoined { unixtime, .. } => Some(*unixtime),
        TalkProtocol::UserLeft { unixtime, .. } => Some(*unixtime),
        TalkProtocol::UsernameChanged { unixtime, .. } => Some(*unixtime),
        _ => None,
    }
}

/// The time of the oldest message on display that carries one: the point
/// before which history is fetched. `unixtime`, the time now, where none
/// does.
pub fn get_first_message_timestamp(app: &ChatClient, unixtime: u64) -> (first: u64)
    ensures
        first == first_timestamp(app@.messages, unixtime),
{
    let mut i: usize = 0;
    assert(app@.messages.skip(0) =~= app@.messages);
    while i < app.messages.len()
        invariant
            i <= app.messages.len(),
            first_timestamp(app@.messages, unixtime) == first_timestamp(
                app@.messages.skip(i as int),
                unixtime,
            ),
        decreases app.messages.len() - i,
    {
        assert(app@.messages.skip(i as int).skip(1) =~= app@.messages.skip(i + 1));
        match message_timestamp(&app.messages[i]) {
            Some(first) => {
                return first;
            },
            None => {},
        }
        i += 1;
    }
    unixtime
}

/// An answer on the client's own display that something went wrong.
pub open spec fn local_error(message: Seq<char>) -> ProtocolView {
    ProtocolView::LocalError { message }
}

/// What `/help` answers.
pub open spec fn help_of() -> ProtocolView {
    ProtocolView::LocalInformation { message: HELP_TEXT@ }
}

/// Why a number could not be read, in words.
pub open spec fn describe_of(error: NumberError) -> Seq<char> {
    match error {
        NumberError::Empty => "cannot parse integer from empty string"@,
        NumberError::InvalidDigit => "invalid digit found in string"@,
        NumberError::PosOverflow => "number too large to fit in target type"@,
        NumberError::NegOverflow => "number too small to fit in target type"@,
    }
}

/// Why a number could not be read, in words.
pub fn describe(error: NumberError) -> (words: &'static str)
    ensures
        words@ == describe_of(error),
{
    match error {
        NumberError::Empty => "cannot parse integer from empty string",
        NumberError::InvalidDigit => "invalid digit found in string",
        NumberError::PosOverflow => "number too large to fit in target type",
        NumberError::NegOverflow => "number too small to fit in target type",
    }
}

/// The command in a line: the line without the slashes it begins with and
/// without the white space around what is left.
pub open spec fn command_of(input: Seq<char>) -> Seq<char> {
    trim(strip_prefixes(input, "/"@))
}

/// The argument of a command: the command without its word, as often as it
/// begins with it, and without the white space around what is left.
pub open spec fn argument_of(command: Seq<char>, word: Seq<char>) -> Seq<char> {
    trim(strip_prefixes(command, word))
}

/// What a command does: the client afterwards, and the messages to send.
///
/// * `name` takes the argument as the new name and tells the relay. A name
///   that is too long is refused with a complaint: the name stays, and
///   nothing is sent.
/// * `room` leaves and then enters the room that the argument names.
/// * `clear` empties the display.
/// * `help` shows the commands.
/// * `fetch` asks for as many older messages as the argument says.
/// * Anything else is answered with a complaint.
pub open spec fn command_turn(client: ClientView, unixtime: u64) -> (ClientView, Seq<ProtocolView>) {
    let command = command_of(client.input_text);
    if has_prefix(command, "name"@) {
        let new_name = argument_of(command, "name"@);
        if utf8_len(new_name) > USERNAME_LENGTH {
            (
                ClientView {
                    messages: client.messages.push(local_error("Username too long"@)),
                    ..client
                },
                Seq::empty(),
            )
        } else {
            (
                ClientView { username: new_name, ..client },
                seq![
                    ProtocolView::ChangeName {
                        uuid: client.uuid,
                        username: new_name,
                        old_username: client.username,
                        unixtime,
                    },
                ],
            )
        }
    } else if has_prefix(command, "room"@) {
        match parse_number(argument_of(command, "room"@), i32::MIN as int, i32::MAX as int) {
            Ok(number) => (
                ClientView { room_id: number as i32, ..client },
                seq![
                    ProtocolView::LeaveRoom {
                        room_id: number as i32,
                        uuid: client.uuid,
                        username: client.username,
                        unixtime,
                    },
                    ProtocolView::JoinRoom {
                        room_id: number as i32,
                        uuid: client.uuid,
                        username: client.username,
                        unixtime,
                    },
                ],
            ),
            Err(error) => (
                ClientView {
                    messages: client.messages.push(
                        local_error("Invalid room id: "@ + describe_of(error)),
                    ),
                    ..client
                },
                Seq::empty(),
            ),
        }
    } else if command == "clear"@ {
        (ClientView { messages: Seq::empty(), ..client }, Seq::empty())
    } else if command == "help"@ {
        (ClientView { messages: client.messages.push(help_of()), ..client }, Seq::empty())
    } else if has_prefix(command, "fetch"@) {
        match parse_number(argument_of(command, "fetch"@), i64::MIN as int, i64::MAX as int) {
            Ok(limit) => (
                client,
                seq![
                    ProtocolView::Fetch {
                        room_id: client.room_id,
                        limit: limit as i64,
                        fetch_before: first_timestamp(client.messages, unixtime),
                    },
                ],
            ),
            Err(error) => (
                ClientView {
                    messages: client.messages.push(
                        local_error("Invalid fetch limit: "@ + describe_of(error)),
                    ),
                    ..client
                },
                Seq::empty(),
            ),
        }
    } else {
        (
            ClientView {
                messages: client.messages.push(
                    local_error("The command '"@ + command + "' does not exist"@),
                ),
                ..client
            },
            Seq::empty(),
        )
    }
}

/// What a typed line does: the client afterwards, and the messages to send.
///
/// A line that holds nothing but white space, and a line that is too long,
/// are refused with a complaint: nothing is read and nothing is sent. Of the
/// others, a line that begins with `/` is a command; any other is posted,
/// without the white space around it, to the client's room.
pub open spec fn input_turn(client: ClientView, unixtime: u64) -> (ClientView, Seq<ProtocolView>) {
    let trimmed = trim(client.input_text);
    if trimmed.len() == 0 {
        (
            ClientView {
                messages: client.messages.push(local_error("No command given"@)),
                ..client
            },
            Seq::empty(),
        )
    } else if utf8_len(trimmed) >= MESSAGE_LENGTH {
        (
            ClientView {
                messages: client.messages.push(local_error("Input too long"@)),
                ..client
            },
            Seq::empty(),
        )
    } else if has_prefix(trimmed, "/"@) {
        command_turn(client, unixtime)
    } else {
        (
            client,
            seq![
                ProtocolView::PostMessage {
                    message: MessageView {
                        uuid: client.uuid,
                        username: client.username,
                        text: trimmed,
                        room_id: client.room_id,
                        unixtime,
                    },
                },
            ],
        )
    }
}

/// What `/help` answers.
pub fn parse_help() -> (help: TalkProtocol)
    ensures
        help@ == help_of(),
{
    TalkProtocol::LocalInformation { message: String::from_str(HELP_TEXT) }
}

fn complain(app: &mut ChatClient, message: String)
    ensures
        final(app)@ == (ClientView {
            messages: old(app)@.messages.push(local_error(message@)),
            ..old(app)@
        }),
{
    proof {
        lemma_views_push(app.messages@, TalkProtocol::LocalError { message });
    }
    app.messages.push(TalkProtocol::LocalError { message });
}

/// Reads the line of `app` as a command and carries it out, at the time
/// `unixtime`. Returns the messages to send, in order.
pub fn parse_command(app: &mut ChatClient, unixtime: u64) -> (outbox: Vec<TalkProtocol>)
    ensures
        (final(app)@, views(outbox@)) == command_turn(old(app)@, unixtime),
{
    let chars = chars_of(app.input_text.as_str());
    let end = chars.len();
    assert(chars@.subrange(0, end as int) =~= chars@);
    let after_slashes = skip_prefixes(&chars, 0, end, &chars_of("/"));
    let (from, to) = trim_range(&chars, after_slashes, end);
    let ghost command = chars@.subrange(from as int, to as int);
    assert(command == command_of(old(app)@.input_text));
    let mut outbox: Vec<TalkProtocol> = Vec::new();
    assert(views(outbox@) =~= Seq::empty());

    let name = chars_of("name");
    let room = chars_of("room");
    let fetch = chars_of("fetch");
    if starts_with(&chars, from, to, &name) {
        let (a, b) = trim_range(&chars, skip_prefixes(&chars, from, to, &name), to);
        if byte_len(&chars, a, b) > USERNAME_LENGTH {
            complain(app, String::from_str("Username too long"));
            return outbox;
        }
        let new_name = String::from_str(app.input_text.as_str().substring_char(a, b));
        let old_username = app.username.clone();
        app.username = new_name;
        outbox.push(
            TalkProtocol::ChangeName {
                uuid: app.uuid,
                username: app.username.clone(),
                old_username,
                unixtime,
            },
        );
        assert(views(outbox@) =~= seq![outbox@[0]@]);
    } else if starts_with(&chars, from, to, &room) {
        let (a, b) = trim_range(&chars, skip_prefixes(&chars, from, to, &room), to);
        match parse_range(&chars, a, b, i32::MIN as i64, i32::MAX as i64) {
            Ok(number) => {
                let number: i32 = number as i32;
                outbox.push(leave_room(number, app.uuid, app.username.clone(), unixtime));
                app.room_id = number;
                outbox.push(join_room(number, app.uuid, app.username.clone(), unixtime));
                assert(views(outbox@) =~= seq![outbox@[0]@, outbox@[1]@]);
            },
            Err(error) => {
                let mut message = String::from_str("Invalid room id: ");
                message.append(describe(error));
                complain(app, message);
            },
        }
    } else if is_word(&chars, from, to, &chars_of("clear")) {
        app.messages.clear();
        assert(app@.messages =~= Seq::empty());
    } else if is_word(&chars, from, to, &chars_of("help")) {
        let help = parse_help();
        proof {
            lemma_views_push(app.messages@, help);
        }
        app.messages.push(help);
    } else if starts_with(&chars, from, to, &fetch) {
        let (a, b) = trim_range(&chars, skip_prefixes(&chars, from, to, &fetch), to);
        match parse_range(&chars, a, b, i64::MIN, i64::MAX) {
            Ok(limit) => {
                let fetch_before = get_first_message_timestamp(app, unixtime);
                outbox.push(TalkProtocol::Fetch { room_id: app.room_id, limit, fetch_before });
                assert(views(outbox@) =~= seq![outbox@[0]@]);
            },
            Err(error) => {
                let mut message = String::from_str("Invalid fetch limit: ");
                message.append(describe(error));
                complain(app, message);
            },
        }
    } else {
        let mut message = String::from_str("The command '");
        message.append(app.input_text.as_str().substring_char(from, to));
        message.append("' does not exist");
        complain(app, message);
    }
    outbox
}

/// Reads the line of `app`, at the time `unixtime`: refuses an empty or
/// over-long line, carries out a command, or makes a chat message of anything
/// else. Returns the messages to send, in order. The line itself stays as it
/// is.
pub fn parse_input(app: &mut ChatClient, unixtime: u64) -> (outbox: Vec<TalkProtocol>)
    ensures
        (final(app)@, views(outbox@)) == input_turn(old(app)@, unixtime),
{
    let chars = chars_of(app.input_text.as_str());
    let end = chars.len();
    assert(chars@.subrange(0, end as int) =~= chars@);
    let (from, to) = trim_range(&chars, 0, end);
    if from == to {
        complain(app, String::from_str("No command given"));
        let refused: Vec<TalkProtocol> = Vec::new();
        assert(views(refused@) =~= Seq::empty());
        return refused;
    }
    if byte_len(&chars, from, to) >= MESSAGE_LENGTH {
        complain(app, String::from_str("Input too long"));
        let refused: Vec<TalkProtocol> = Vec::new();
        assert(views(refused@) =~= Seq::empty());
        return refused;
    }
    if starts_with(&chars, from, to, &chars_of("/")) {
        parse_command(app, unixtime)
    } else {
        let mut outbox: Vec<TalkProtocol> = Vec::new();
        let text = String::from_str(app.input_text.as_str().substring_char(from, to));
        outbox.push(
            TalkProtocol::PostMessage {
                message: TalkMessage {
                    uuid: app.uuid,
                    username: app.username.clone(),
                    text,
                    room_id: app.room_id,
                    unixtime,
                },
            },
        );
        assert(views(outbox@) =~= seq![outbox@[0]@]);
        outbox
    }
}

} // verus!
