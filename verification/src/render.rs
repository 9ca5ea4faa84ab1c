//! How a client shows a message: the kind of block, and the pieces of text
//! in it. Turning the pieces into markup is left to the caller, and so is the
//! clock: a piece that shows a time carries the time itself.

use vstd::prelude::*;
use vstd::string::{StrSliceExecFns, StringExecFns};
use crate::channel::{decimal_digits, push_decimal};
use crate::protocol::{ProtocolView, TalkProtocol};
use crate::text::{chars_of, drop_whitespace, trim_end};

verus! {

/// The block of a chat message.
pub const MESSAGE_HEADER: &'static str = "message-header";

/// The block of a notice of the relay.
pub const SYSTEM_MESSAGE: &'static str = "system-message";

/// The block of an error.
pub const ERROR_MESSAGE: &'static str = "error-message";

/// The block of a piece of information.
pub const MESSAGE: &'static str = "message";

/// The span of a sender's name.
pub const USERNAME: &'static str = "username";

/// The span of a chat message's text.
pub const MESSAGE_TEXT: &'static str = "message-text";

/// One piece of a rendered message.
#[derive(Debug, PartialEq)]
pub enum Piece {
    /// The time of day of this moment, in its own span, followed by a space.
    Clock(u64),
    /// A text in a span of the class named; an empty name is no class.
    Span { class: &'static str, text: String },
    /// A text by itself.
    Text(String),
}

/// The mathematical value of a `Piece`.
pub enum PieceView {
    Clock(u64),
    Span { class: Seq<char>, text: Seq<char> },
    Text(Seq<char>),
}

impl View for Piece {
    type V = PieceView;

    open spec fn view(&self) -> PieceView {
        match self {
            Piece::Clock(unixtime) => PieceView::Clock(*unixtime),
            Piece::Span { class, text } => PieceView::Span { class: class@, text: text@ },
            Piece::Text(text) => PieceView::Text(text@),
        }
    }
}

/// A message as it is shown.
#[derive(Debug, PartialEq)]
pub struct Rendered {
    /// The class of the block.
    pub class: &'static str,
    /// Whether line breaks in the text are kept.
    pub pre_line: bool,
    pub pieces: Vec<Piece>,
}

/// The mathematical value of a `Rendered`.
pub struct RenderedView {
    pub class: Seq<char>,
    pub pre_line: bool,
    pub pieces: Seq<PieceView>,
}

impl View for Rendered {
    type V = RenderedView;

    open spec fn view(&self) -> RenderedView {
        RenderedView {
            class: self.class@,
            pre_line: self.pre_line,
            pieces: Seq::new(self.pieces@.len(), |i: int| self.pieces@[i]@),
        }
    }
}

/// `n` in decimal with at least two digits.
pub open spec fn two_digits(n: nat) -> Seq<char> {
    if n < 10 {
        "0"@ + decimal_digits(n)
    } else {
        decimal_digits(n)
    }
}

/// A time of day as it is shown: `<HH:MM> `.
pub open spec fn clock_of(hour: nat, minute: nat) -> Seq<char> {
    "<"@ + two_digits(hour) + ":"@ + two_digits(minute) + "> "@
}

fn push_two_digits(out: &mut String, n: u32)
    ensures
        final(out)@ == old(out)@ + two_digits(n as nat),
{
    if n < 10 {
        out.append("0");
    }
    push_decimal(out, n as u64);
    assert(final(out)@ =~= old(out)@ + two_digits(n as nat));
}

/// Writes a time of day as it is shown: `<HH:MM> `.
pub fn format_timestamp(hour: u32, minute: u32) -> (text: String)
    ensures
        text@ == clock_of(hour as nat, minute as nat),
{
    let mut text = String::from_str("<");
    push_two_digits(&mut text, hour);
    text.append(":");
    push_two_digits(&mut text, minute);
    text.append("> ");
    assert(text@ =~= clock_of(hour as nat, minute as nat));
    text
}

/// How a message is shown; `None` for the messages that are not.
///
/// A chat message shows its time, its sender and its text. A join and a name
/// change show their time and say what happened; a leave only says what
/// happened. Errors and information show their text, information without the
/// white space at its end.
pub open spec fn rendered_of(message: ProtocolView) -> Option<RenderedView> {
    match message {
        ProtocolView::PostMessage { message } => Some(
            RenderedView {
                class: MESSAGE_HEADER@,
                pre_line: false,
                pieces: seq![
                    PieceView::Clock(message.unixtime),
                    PieceView::Span { class: USERNAME@, text: message.username + ": "@ },
                    PieceView::Span { class: MESSAGE_TEXT@, text: message.text },
                ],
            },
        ),
        ProtocolView::UserJoined { username, unixtime, .. } => Some(
            RenderedView {
                class: SYSTEM_MESSAGE@,
                pre_line: false,
                pieces: seq![
                    PieceView::Clock(unixtime),
                    PieceView::Span { class: ""@, text: username + " joined room"@ },
                ],
            },
        ),
        ProtocolView::UserLeft { username, .. } => Some(
            RenderedView {
                class: SYSTEM_MESSAGE@,
                pre_line: false,
                pieces: seq![PieceView::Text(username + " left room"@)],
            },
        ),
        ProtocolView::UsernameChanged { unixtime, username, old_username, .. } => Some(
            RenderedView {
                class: SYSTEM_MESSAGE@,
                pre_line: false,
                pieces: seq![
                    PieceView::Clock(unixtime),
                    PieceView::Span {
                        class: ""@,
                        text: old_username + " changed name to "@ + username,
                    },
                ],
            },
        ),
        ProtocolView::Error { code, message } => Some(
            RenderedView {
                class: ERROR_MESSAGE@,
                pre_line: false,
                pieces: seq![
                    PieceView::Text("Error "@ + decimal_digits(code as nat) + ": "@ + message),
                ],
            },
        ),
        ProtocolView::LocalError { message } => Some(
            RenderedView {
                class: ERROR_MESSAGE@,
                pre_line: false,
                pieces: seq![PieceView::Text("Error: "@ + message)],
            },
        ),
        ProtocolView::LocalInformation { message } => Some(
            RenderedView {
                class: MESSAGE@,
                pre_line: true,
                pieces: seq![PieceView::Text("Info: "@ + trim_end(message))],
            },
        ),
        _ => None,
    }
}

fn joined(first: &str, second: &str) -> (text: String)
    ensures
        text@ == first@ + second@,
{
    let mut text = String::from_str(first);
    text.append(second);
    text
}

fn block(class: &'static str, pre_line: bool, pieces: Vec<Piece>) -> (rendered: Option<Rendered>)
    ensures
        rendered is Some,
        rendered->0@ == (RenderedView {
            class: class@,
            pre_line,
            pieces: Seq::new(pieces@.len(), |i: int| pieces@[i]@),
        }),
{
    Some(Rendered { class, pre_line, pieces })
}

/// Decides how a message is shown.
pub fn render_message(msg: &TalkProtocol) -> (rendered: Option<Rendered>)
    ensures
        match rendered {
            Some(shown) => Some(shown@),
            None => None,
        } == rendered_of(msg@),
{
    let mut pieces: Vec<Piece> = Vec::new();
    match msg {
        TalkProtocol::PostMessage { message } => {
            pieces.push(Piece::Clock(message.unixtime));
            pieces.push(Piece::Span { class: USERNAME, text: joined(message.username.as_str(), ": ") });
            pieces.push(Piece::Span { class: MESSAGE_TEXT, text: message.text.clone() });
            let rendered = block(MESSAGE_HEADER, false, pieces);
            assert(rendered->0@.pieces =~= rendered_of(msg@)->0.pieces);
            rendered
        },
        TalkProtocol::UserJoined { username, unixtime, .. } => {
            pieces.push(Piece::Clock(*unixtime));
            pieces.push(Piece::Span { class: "", text: joined(username.as_str(), " joined room") });
            let rendered = block(SYSTEM_MESSAGE, false, pieces);
            assert(rendered->0@.pieces =~= rendered_of(msg@)->0.pieces);
            rendered
        },
        TalkProtocol::UserLeft { username, .. } => {
            pieces.push(Piece::Text(joined(username.as_str(), " left room")));
            let rendered = block(SYSTEM_MESSAGE, false, pieces);
            assert(rendered->0@.pieces =~= rendered_of(msg@)->0.pieces);
            rendered
        },
        TalkProtocol::UsernameChanged { unixtime, username, old_username, .. } => {
            let mut text = joined(old_username.as_str(), " changed name to ");
            text.append(username.as_str());
            pieces.push(Piece::Clock(*unixtime));
            pieces.push(Piece::Span { class: "", text });
            let rendered = block(SYSTEM_MESSAGE, false, pieces);
            assert(rendered->0@.pieces =~= rendered_of(msg@)->0.pieces);
            rendered
        },
        TalkProtocol::Error { code, message } => {
            let mut text = String::from_str("Error ");
            push_decimal(&mut text, *code as u64);
            text.append(": ");
            text.append(message.as_str());
            pieces.push(Piece::Text(text));
            let rendered = block(ERROR_MESSAGE, false, pieces);
            assert(rendered->0@.pieces =~= rendered_of(msg@)->0.pieces);
            rendered
        },
        TalkProtocol::LocalError { message } => {
            pieces.push(Piece::Text(joined("Error: ", message.as_str())));
            let rendered = block(ERROR_MESSAGE, false, pieces);
            assert(rendered->0@.pieces =~= rendered_of(msg@)->0.pieces);
            rendered
        },
        TalkProtocol::LocalInformation { message } => {
            let chars = chars_of(message.as_str());
            assert(chars@.subrange(0, chars.len() as int) =~= chars@);
            let end = drop_whitespace(&chars, 0, chars.len());
            pieces.push(Piece::Text(joined("Info: ", message.as_str().substring_char(0, end))));
            let rendered = block(MESSAGE, true, pieces);
            assert(rendered->0@.pieces =~= rendered_of(msg@)->0.pieces);
            rendered
        },
        _ => None,
    }
}

} // verus!
