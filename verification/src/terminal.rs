//! The state of the terminal client: the line being edited, the position in
//! the message list, and what each key does to them.

use vstd::prelude::*;
use vstd::string::{StrSliceExecFns, StringExecFns};
use uuid::Uuid;
use crate::client::{DEFAULT_ROOM, DEFAULT_USERNAME};
use crate::text::{byte_len, chars_of, push_char, utf8_len};

verus! {

/// The number of lines that a fast scroll moves by.
pub const FAST_SCROLL: usize = 10;

/// The number of lines that a scroll moves by.
pub const DEFAULT_SCROLL: usize = 1;

/// Whether keys move through the messages or edit the line.
#[derive(Clone, Copy, Debug, PartialEq, Eq, Structural)]
pub enum InputMode {
    Normal,
    Editing,
}

/// A key, as far as the client tells keys apart.
#[derive(Clone, Copy, Debug, PartialEq, Eq, Structural)]
pub enum Key {
    Char(char),
    Enter,
    Backspace,
    Left,
    Right,
    Esc,
    Other,
}

/// What the owner of the client is to do after a key.
#[derive(Debug, PartialEq)]
pub enum KeyOutcome {
    /// Go on.
    Continue,
    /// Leave the program.
    Quit,
    /// Read this line as input.
    Submit(String),
}

/// The mathematical value of a `KeyOutcome`.
pub enum OutcomeView {
    Continue,
    Quit,
    Submit(Seq<char>),
}

impl View for KeyOutcome {
    type V = OutcomeView;

    open spec fn view(&self) -> OutcomeView {
        match self {
            KeyOutcome::Continue => OutcomeView::Continue,
            KeyOutcome::Quit => OutcomeView::Quit,
            KeyOutcome::Submit(line) => OutcomeView::Submit(line@),
        }
    }
}

/// The terminal client.
#[derive(Debug)]
pub struct App {
    /// The line being edited.
    pub input: String,
    /// The position of the cursor in the line, in characters.
    pub character_index: usize,
    pub input_mode: InputMode,
    /// How far the message list is scrolled.
    pub scroll: usize,
    /// How far it can be scrolled.
    pub max_scroll: usize,
    /// Whether the list follows new messages.
    pub auto_scroll: bool,
    pub username: String,
    pub room: i32,
    pub uuid: Uuid,
}

/// The mathematical value of an `App`.
pub struct AppView {
    pub input: Seq<char>,
    pub character_index: int,
    pub input_mode: InputMode,
    pub scroll: int,
    pub max_scroll: int,
    pub auto_scroll: bool,
    pub username: Seq<char>,
    pub room: i32,
    pub uuid: Uuid,
}

impl View for App {
    type V = AppView;

    open spec fn view(&self) -> AppView {
        AppView {
            input: self.input@,
            character_index: self.character_index as int,
            input_mode: self.input_mode,
            scroll: self.scroll as int,
            max_scroll: self.max_scroll as int,
            auto_scroll: self.auto_scroll,
            username: self.username@,
            room: self.room,
            uuid: self.uuid,
        }
    }
}

/// The smaller of two numbers.
pub open spec fn least(a: int, b: int) -> int {
    if a <= b {
        a
    } else {
        b
    }
}

impl AppView {
    /// A cursor position held within the line.
    pub open spec fn clamp_cursor(self, position: int) -> int {
        least(position, self.input.len() as int)
    }

    /// The client with the cursor one character to the left, where there is
    /// one.
    pub open spec fn move_cursor_left(self) -> AppView {
        AppView {
            character_index: self.clamp_cursor(
                if self.character_index > 0 {
                    self.character_index - 1
                } else {
                    0
                },
            ),
            ..self
        }
    }

    /// The client with the cursor one character to the right, where there is
    /// one.
    pub open spec fn move_cursor_right(self) -> AppView {
        AppView { character_index: self.clamp_cursor(self.character_index + 1), ..self }
    }

    /// The client after `c` was typed at the cursor.
    pub open spec fn enter_char(self, c: char) -> AppView {
        let at = self.clamp_cursor(self.character_index);
        (AppView { input: self.input.take(at).push(c) + self.input.skip(at), ..self }).move_cursor_right()
    }

    /// The client after the character before the cursor was deleted. At the
    /// start of the line nothing happens.
    pub open spec fn delete_char(self) -> AppView {
        if self.character_index == 0 {
            self
        } else {
            (AppView {
                input: self.input.take(self.clamp_cursor(self.character_index - 1))
                    + self.input.skip(self.clamp_cursor(self.character_index)),
                ..self
            }).move_cursor_left()
        }
    }

    /// The client with an empty line and the cursor at its start.
    pub open spec fn cleared(self) -> AppView {
        AppView { input: Seq::empty(), character_index: 0, ..self }
    }

    /// The client after one line more of the past came into view.
    pub open spec fn scroll_up(self) -> AppView {
        let scroll = if self.scroll < self.max_scroll {
            self.scroll + DEFAULT_SCROLL
        } else {
            self.scroll
        };
        AppView { scroll, auto_scroll: self.auto_scroll || scroll >= self.max_scroll, ..self }
    }

    /// The client after a fast scroll towards the past.
    pub open spec fn scroll_up_fast(self) -> AppView {
        let scroll = if self.max_scroll >= FAST_SCROLL && self.scroll < self.max_scroll
            - FAST_SCROLL {
            self.scroll + FAST_SCROLL
        } else {
            self.max_scroll
        };
        AppView { scroll, auto_scroll: self.auto_scroll || scroll >= self.max_scroll, ..self }
    }

    /// The client after one line less of the past is in view.
    pub open spec fn scroll_down(self) -> AppView {
        AppView {
            scroll: if self.scroll > 0 {
                self.scroll - DEFAULT_SCROLL
            } else {
                self.scroll
            },
            auto_scroll: false,
            ..self
        }
    }

    /// The client after a fast scroll towards the present.
    pub open spec fn scroll_down_fast(self) -> AppView {
        AppView {
            scroll: if self.scroll > FAST_SCROLL {
                self.scroll - FAST_SCROLL
            } else {
                0
            },
            auto_scroll: false,
            ..self
        }
    }

    /// What a key does.
    ///
    /// While moving through the messages: `i` starts editing, `q` leaves,
    /// `g` goes to the far end and follows new messages, `G` goes to the near
    /// end, `k` and `K` scroll one way, `j` and `J` the other. While editing,
    /// and only when the key was pressed: Enter submits the line and empties
    /// it, a character is typed, Backspace deletes, the arrows move the
    /// cursor, and Escape ends editing.
    pub open spec fn on_key(self, key: Key, pressed: bool) -> (AppView, OutcomeView) {
        match self.input_mode {
            InputMode::Normal => match key {
                Key::Char('i') => (
                    AppView { input_mode: InputMode::Editing, ..self },
                    OutcomeView::Continue,
                ),
                Key::Char('q') => (self, OutcomeView::Quit),
                Key::Char('g') => (
                    AppView { scroll: self.max_scroll, auto_scroll: true, ..self },
                    OutcomeView::Continue,
                ),
                Key::Char('G') => (
                    AppView { scroll: 0, auto_scroll: false, ..self },
                    OutcomeView::Continue,
                ),
                Key::Char('k') => (self.scroll_up(), OutcomeView::Continue),
                Key::Char('K') => (self.scroll_up_fast(), OutcomeView::Continue),
                Key::Char('j') => (self.scroll_down(), OutcomeView::Continue),
                Key::Char('J') => (self.scroll_down_fast(), OutcomeView::Continue),
                _ => (self, OutcomeView::Continue),
            },
            InputMode::Editing => if pressed {
                match key {
                    Key::Enter => (self.cleared(), OutcomeView::Submit(self.input)),
                    Key::Char(c) => (self.enter_char(c), OutcomeView::Continue),
                    Key::Backspace => (self.delete_char(), OutcomeView::Continue),
                    Key::Left => (self.move_cursor_left(), OutcomeView::Continue),
                    Key::Right => (self.move_cursor_right(), OutcomeView::Continue),
                    Key::Esc => (
                        AppView { input_mode: InputMode::Normal, ..self },
                        OutcomeView::Continue,
                    ),
                    Key::Other => (self, OutcomeView::Continue),
                }
            } else {
                (self, OutcomeView::Continue)
            },
        }
    }
}

impl App {
    /// A client at its start: an empty line, moving through the messages,
    /// following new ones, with the default name and room.
    pub fn new(uuid: Uuid) -> (app: Self)
        ensures
            app@ == (AppView {
                input: Seq::empty(),
                character_index: 0,
                input_mode: InputMode::Normal,
                scroll: 0,
                max_scroll: 0,
                auto_scroll: true,
                username: DEFAULT_USERNAME@,
                room: DEFAULT_ROOM,
                uuid,
            }),
    {
        App {
            input: String::new(),
            input_mode: InputMode::Normal,
            scroll: 0,
            max_scroll: 0,
            auto_scroll: true,
            character_index: 0,
            username: String::from_str(DEFAULT_USERNAME),
            room: DEFAULT_ROOM,
            uuid,
        }
    }

    /// Holds a cursor position within the line.
    pub fn clamp_cursor(&self, new_cursor_pos: usize) -> (position: usize)
        ensures
            position == self@.clamp_cursor(new_cursor_pos as int),
            self@.input.len() <= usize::MAX,
    {
        let len = self.input.as_str().unicode_len();
        if new_cursor_pos <= len {
            new_cursor_pos
        } else {
            len
        }
    }

    /// Moves the cursor one character to the left.
    pub fn move_cursor_left(&mut self)
        ensures
            final(self)@ == old(self)@.move_cursor_left(),
    {
        let cursor_moved_left = if self.character_index > 0 {
            self.character_index - 1
        } else {
            0
        };
        self.character_index = self.clamp_cursor(cursor_moved_left);
    }

    /// Moves the cursor one character to the right.
    pub fn move_cursor_right(&mut self)
        ensures
            final(self)@ == old(self)@.move_cursor_right(),
    {
        let cursor_moved_right = if self.character_index < usize::MAX {
            self.character_index + 1
        } else {
            usize::MAX
        };
        self.character_index = self.clamp_cursor(cursor_moved_right);
    }

    /// The position of the cursor in the line in bytes: the number of bytes
    /// that the characters before it take, or the largest number there is
    /// where they take more.
    pub fn byte_index(&self) -> (index: usize)
        ensures
            index == least(
                utf8_len(self@.input.take(self@.clamp_cursor(self@.character_index))) as int,
                usize::MAX as int,
            ),
    {
        let chars = chars_of(self.input.as_str());
        let at = self.clamp_cursor(self.character_index);
        assert(chars@.subrange(0, at as int) =~= self@.input.take(at as int));
        byte_len(&chars, 0, at)
    }

    /// Types `new_char` at the cursor.
    pub fn enter_char(&mut self, new_char: char)
        ensures
            final(self)@ == old(self)@.enter_char(new_char),
    {
        let len = self.input.as_str().unicode_len();
        let at = self.clamp_cursor(self.character_index);
        let mut input = String::from_str(self.input.as_str().substring_char(0, at));
        push_char(&mut input, new_char);
        input.append(self.input.as_str().substring_char(at, len));
        assert(input@ =~= old(self)@.input.take(at as int).push(new_char) + old(self)@.input.skip(
            at as int,
        ));
        self.input = input;
        self.move_cursor_right();
    }

    /// Deletes the character before the cursor.
    pub fn delete_char(&mut self)
        ensures
            final(self)@ == old(self)@.delete_char(),
    {
        let is_not_cursor_leftmost = self.character_index != 0;
        if is_not_cursor_leftmost {
            let len = self.input.as_str().unicode_len();
            let current_index = self.clamp_cursor(self.character_index);
            let from_left_to_current_index = self.clamp_cursor(self.character_index - 1);
            let mut input = String::from_str(
                self.input.as_str().substring_char(0, from_left_to_current_index),
            );
            input.append(self.input.as_str().substring_char(current_index, len));
            assert(input@ =~= old(self)@.input.take(from_left_to_current_index as int) + old(
                self,
            )@.input.skip(current_index as int));
            self.input = input;
            self.move_cursor_left();
        }
    }

    /// Puts the cursor at the start of the line.
    pub fn reset_cursor(&mut self)
        ensures
            final(self)@ == (AppView { character_index: 0, ..old(self)@ }),
    {
        self.character_index = 0;
    }

    /// Takes the line for reading: returns it, and leaves an empty line with
    /// the cursor at its start.
    pub fn submit_message(&mut self) -> (line: String)
        ensures
            line@ == old(self)@.input,
            final(self)@ == old(self)@.cleared(),
    {
        let mut line = String::new();
        std::mem::swap(&mut line, &mut self.input);
        self.reset_cursor();
        line
    }

    /// Applies one key. `pressed` says whether the key went down, as against
    /// being held or released.
    pub fn on_key(&mut self, key: Key, pressed: bool) -> (outcome: KeyOutcome)
        ensures
            (final(self)@, outcome@) == old(self)@.on_key(key, pressed),
    {
        match self.input_mode {
            InputMode::Normal => match key {
                Key::Char('i') => {
                    self.input_mode = InputMode::Editing;
                },
                Key::Char('q') => {
                    return KeyOutcome::Quit;
                },
                Key::Char('g') => {
                    self.scroll = self.max_scroll;
                    self.auto_scroll = true;
                },
                Key::Char('G') => {
                    self.auto_scroll = false;
                    self.scroll = 0;
                },
                Key::Char('k') => {
                    if self.scroll < self.max_scroll {
                        self.scroll += DEFAULT_SCROLL;
                    }
                    if self.scroll >= self.max_scroll {
                        self.auto_scroll = true;
                    }
                },
                Key::Char('K') => {
                    if self.max_scroll >= FAST_SCROLL && self.scroll < self.max_scroll - FAST_SCROLL {
                        self.scroll += FAST_SCROLL;
                    } else {
                        self.scroll = self.max_scroll;
                    }
                    if self.scroll >= self.max_scroll {
                        self.auto_scroll = true;
                    }
                },
                Key::Char('j') => {
                    self.auto_scroll = false;
                    if self.scroll > 0 {
                        self.scroll -= DEFAULT_SCROLL;
                    }
                },
                Key::Char('J') => {
                    self.auto_scroll = false;
                    if self.scroll > FAST_SCROLL {
                        self.scroll -= FAST_SCROLL;
                    } else {
                        self.scroll = 0;
                    }
                },
                _ => {},
            },
            InputMode::Editing => {
                if pressed {
                    match key {
                        Key::Enter => {
                            return KeyOutcome::Submit(self.submit_message());
                        },
                        Key::Char(to_insert) => self.enter_char(to_insert),
                        Key::Backspace => self.delete_char(),
                        Key::Left => self.move_cursor_left(),
                        Key::Right => self.move_cursor_right(),
                        Key::Esc => {
                            self.input_mode = InputMode::Normal;
                        },
                        Key::Other => {},
                    }
                }
            },
        }
        KeyOutcome::Continue
    }
}

} // verus!
