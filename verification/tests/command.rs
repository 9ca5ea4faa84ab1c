use tuitalk::client::ChatClient;
use tuitalk::command::{
    get_first_message_timestamp, join_room, leave_room, parse_command, parse_help, parse_input,
    HELP_TEXT,
};
use tuitalk::protocol::{TalkMessage, TalkProtocol};
use uuid::Uuid;

fn me() -> Uuid {
    Uuid::from_u128(0xaaaaaaaa_bbbb_4ccc_8ddd_eeeeeeeeeeee)
}

fn typing(text: &str) -> ChatClient {
    let mut client = ChatClient::new(me());
    client.input_text = text.to_string();
    client.connected = true;
    client
}

fn local_error(text: &str) -> TalkProtocol {
    TalkProtocol::LocalError { message: text.to_string() }
}

#[test]
fn a_new_client_has_the_defaults() {
    let client = ChatClient::new(me());
    assert!(client.messages.is_empty());
    assert_eq!(client.input_text, "");
    assert_eq!(client.username, "Client");
    assert_eq!(client.room_id, 0);
    assert!(!client.connected);
    assert_eq!(client.uuid, me());
}

#[test]
fn join_and_leave_requests_carry_their_fields() {
    assert_eq!(
        join_room(3, me(), "ann".to_string(), 77),
        TalkProtocol::JoinRoom { room_id: 3, uuid: me(), username: "ann".to_string(), unixtime: 77 }
    );
    assert_eq!(
        leave_room(3, me(), "ann".to_string(), 78),
        TalkProtocol::LeaveRoom { room_id: 3, uuid: me(), username: "ann".to_string(), unixtime: 78 }
    );
}

#[test]
fn plain_text_is_posted_trimmed() {
    let mut client = typing("  hello there \n");
    client.room_id = 4;
    let outbox = parse_input(&mut client, 1000);
    assert_eq!(
        outbox,
        vec![TalkProtocol::PostMessage {
            message: TalkMessage {
                uuid: me(),
                username: "Client".to_string(),
                text: "hello there".to_string(),
                room_id: 4,
                unixtime: 1000,
            }
        }]
    );
    assert!(client.messages.is_empty());
    assert_eq!(client.input_text, "  hello there \n");
}

#[test]
fn an_empty_line_is_refused() {
    for line in ["", "   ", " \t\n"] {
        let mut client = typing(line);
        let outbox = parse_input(&mut client, 5);
        assert_eq!(client.messages, vec![local_error("No command given")], "{:?}", line);
        assert!(outbox.is_empty(), "{:?}", line);
        assert_eq!(client.input_text, line);
    }
}

#[test]
fn a_long_line_is_refused() {
    let long = "x".repeat(250);
    let mut client = typing(&long);
    let outbox = parse_input(&mut client, 5);
    assert_eq!(client.messages, vec![local_error("Input too long")]);
    assert!(outbox.is_empty());

    let fits = "x".repeat(249);
    let mut client = typing(&fits);
    let outbox = parse_input(&mut client, 5);
    assert!(client.messages.is_empty());
    assert_eq!(outbox.len(), 1);

    // White space around the line does not count.
    let padded = format!("  {}  ", fits);
    let mut client = typing(&padded);
    let outbox = parse_input(&mut client, 5);
    assert!(client.messages.is_empty());
    assert_eq!(outbox.len(), 1);

    // The limit is in bytes, not in characters.
    let wide = "€".repeat(84);
    let mut client = typing(&wide);
    let outbox = parse_input(&mut client, 5);
    assert_eq!(client.messages, vec![local_error("Input too long")]);
    assert!(outbox.is_empty());
}

#[test]
fn a_long_command_is_refused_unread() {
    let line = format!("/name {}", "x".repeat(250));
    let mut client = typing(&line);
    let outbox = parse_input(&mut client, 5);
    assert_eq!(client.messages, vec![local_error("Input too long")]);
    assert!(outbox.is_empty());
    assert_eq!(client.username, "Client");

    let line = format!("/room {}", "1".repeat(250));
    let mut client = typing(&line);
    client.room_id = 3;
    let outbox = parse_input(&mut client, 5);
    assert_eq!(client.messages, vec![local_error("Input too long")]);
    assert!(outbox.is_empty());
    assert_eq!(client.room_id, 3);
}

#[test]
fn name_changes_the_name_and_tells_the_relay() {
    let mut client = typing("/name   bob  ");
    let outbox = parse_input(&mut client, 9);
    assert_eq!(client.username, "bob");
    assert!(client.messages.is_empty());
    assert_eq!(
        outbox,
        vec![TalkProtocol::ChangeName {
            uuid: me(),
            username: "bob".to_string(),
            old_username: "Client".to_string(),
            unixtime: 9,
        }]
    );
}

#[test]
fn a_long_name_is_refused() {
    let mut client = typing("/name abcdefghijklmnop");
    client.room_id = 5;
    let outbox = parse_input(&mut client, 9);
    assert_eq!(client.username, "Client");
    assert_eq!(client.messages, vec![local_error("Username too long")]);
    assert!(outbox.is_empty());

    let mut client = typing("/name abcdefghijklmno");
    let outbox = parse_input(&mut client, 9);
    assert_eq!(client.username, "abcdefghijklmno");
    assert!(client.messages.is_empty());
    assert_eq!(outbox.len(), 1);

    // The limit is in bytes, not in characters.
    let mut client = typing("/name €€€€€€");
    let outbox = parse_command(&mut client, 9);
    assert_eq!(client.username, "Client");
    assert_eq!(client.messages, vec![local_error("Username too long")]);
    assert!(outbox.is_empty());
    let mut client = typing("/name €€€€€");
    let outbox = parse_command(&mut client, 9);
    assert_eq!(client.username, "€€€€€");
    assert_eq!(outbox.len(), 1);
}

#[test]
fn a_repeated_command_word_is_skipped() {
    let mut client = typing("/namename bob");
    parse_input(&mut client, 9);
    assert_eq!(client.username, "bob");

    let mut client = typing("///name names");
    parse_input(&mut client, 9);
    assert_eq!(client.username, "names");
}

#[test]
fn room_leaves_and_joins_the_new_room() {
    let mut client = typing("/room 6");
    client.room_id = 5;
    let outbox = parse_input(&mut client, 11);
    assert_eq!(client.room_id, 6);
    assert_eq!(
        outbox,
        vec![
            TalkProtocol::LeaveRoom {
                room_id: 6,
                uuid: me(),
                username: "Client".to_string(),
                unixtime: 11
            },
            TalkProtocol::JoinRoom {
                room_id: 6,
                uuid: me(),
                username: "Client".to_string(),
                unixtime: 11
            },
        ]
    );
    assert!(client.messages.is_empty());
}

#[test]
fn room_takes_negative_rooms_and_rejects_the_rest() {
    let mut client = typing("/room -12");
    let outbox = parse_input(&mut client, 1);
    assert_eq!(client.room_id, -12);
    assert_eq!(outbox.len(), 2);

    let cases = [
        ("/room", "Invalid room id: cannot parse integer from empty string"),
        ("/room five", "Invalid room id: invalid digit found in string"),
        ("/room 2147483648", "Invalid room id: number too large to fit in target type"),
        ("/room -2147483649", "Invalid room id: number too small to fit in target type"),
    ];
    for (line, complaint) in cases {
        let mut client = typing(line);
        client.room_id = 3;
        let outbox = parse_input(&mut client, 1);
        assert!(outbox.is_empty(), "{}", line);
        assert_eq!(client.room_id, 3);
        assert_eq!(client.messages, vec![local_error(complaint)], "{}", line);
    }
}

#[test]
fn clear_empties_the_display() {
    let mut client = typing("/clear");
    client.messages.push(local_error("old"));
    let outbox = parse_input(&mut client, 1);
    assert!(outbox.is_empty());
    assert!(client.messages.is_empty());
}

#[test]
fn help_shows_the_commands() {
    let mut client = typing("/help ");
    let outbox = parse_input(&mut client, 1);
    assert!(outbox.is_empty());
    assert_eq!(client.messages, vec![parse_help()]);
    assert_eq!(parse_help(), TalkProtocol::LocalInformation { message: HELP_TEXT.to_string() });
    let lines: Vec<&str> = HELP_TEXT.lines().collect();
    assert_eq!(lines.len(), 5);
    assert_eq!(lines[0], "/help to show this command");
    assert_eq!(lines[4], "        /clear clears the chat");
}

#[test]
fn fetch_asks_for_history_before_the_first_message() {
    let mut client = typing("/fetch 20");
    client.room_id = 8;
    client.messages.push(local_error("not dated"));
    client.messages.push(TalkProtocol::UserJoined {
        uuid: me(),
        username: "x".to_string(),
        room_id: 8,
        unixtime: 500,
    });
    client.messages.push(TalkProtocol::UserLeft {
        uuid: me(),
        username: "x".to_string(),
        room_id: 8,
        unixtime: 400,
    });
    let outbox = parse_input(&mut client, 900);
    assert_eq!(outbox, vec![TalkProtocol::Fetch { room_id: 8, limit: 20, fetch_before: 500 }]);
    assert_eq!(client.messages.len(), 3);
}

#[test]
fn fetch_rejects_what_is_no_number() {
    let mut client = typing("/fetch many");
    let outbox = parse_input(&mut client, 900);
    assert!(outbox.is_empty());
    assert_eq!(
        client.messages,
        vec![local_error("Invalid fetch limit: invalid digit found in string")]
    );
    let mut client = typing("/fetch 9223372036854775808");
    parse_input(&mut client, 900);
    assert_eq!(
        client.messages,
        vec![local_error("Invalid fetch limit: number too large to fit in target type")]
    );
}

#[test]
fn an_unknown_command_is_complained_about() {
    let mut client = typing("/dance now");
    let outbox = parse_input(&mut client, 1);
    assert!(outbox.is_empty());
    assert_eq!(client.messages, vec![local_error("The command 'dance now' does not exist")]);
}

#[test]
fn a_command_is_read_from_the_whole_line() {
    // The slashes are taken off the line as typed, so white space before
    // them keeps them in the command.
    let mut client = typing("  /name bob");
    let outbox = parse_input(&mut client, 1);
    assert!(outbox.is_empty());
    assert_eq!(client.username, "Client");
    assert_eq!(client.messages, vec![local_error("The command '/name bob' does not exist")]);

    let mut client = typing("name bob");
    let outbox = parse_command(&mut client, 1);
    assert_eq!(client.username, "bob");
    assert_eq!(outbox.len(), 1);
}

#[test]
fn the_first_dated_message_gives_the_timestamp() {
    let mut client = ChatClient::new(me());
    assert_eq!(get_first_message_timestamp(&client, 42), 42);
    client.messages.push(TalkProtocol::Error { code: 1, message: "e".to_string() });
    client.messages.push(TalkProtocol::JoinRoom {
        room_id: 1,
        uuid: me(),
        username: "x".to_string(),
        unixtime: 7,
    });
    assert_eq!(get_first_message_timestamp(&client, 42), 42);
    client.messages.push(TalkProtocol::PostMessage {
        message: TalkMessage {
            uuid: me(),
            username: "x".to_string(),
            text: "t".to_string(),
            room_id: 1,
            unixtime: 30,
        },
    });
    client.messages.push(TalkProtocol::UsernameChanged {
        uuid: me(),
        username: "y".to_string(),
        old_username: "x".to_string(),
        unixtime: 20,
    });
    assert_eq!(get_first_message_timestamp(&client, 42), 30);
}
