//! The application state and the routing of input events to the focus
//! controller, the two conversation lists and the text input.

use vstd::prelude::*;
use crate::conversation::{Channel, Conversation, ListEntry, Message, User};
use crate::editor::{InputBuffer, InputModel, MAX_INPUT_CHARS, backspaced, inserted};
use crate::focus::Focus;
use crate::list::{ConversationList, moved_down, moved_up};
use crate::observer;
use crate::pane::{ActiveBlock, Direction};

verus! {

/// An event of the dispatch loop. The input side sends `Event<KeyPress>`;
/// the dispatch answers with `Event<observer::Event>`, where `Tick` asks
/// only for a redraw, `Quit` ends the loop and `Change` carries a committed
/// change of conversation.
pub enum Event<T> {
    /// A key press.
    Input(T),
    /// The tick interval passed without a key press; redraw.
    Tick,
    /// Stop the loop.
    Quit,
    /// A change to carry out.
    Change(T),
}

/// The key of a key press.
#[derive(Debug, Clone, Copy, PartialEq, Eq, Structural)]
pub enum Key {
    Char(char),
    Up,
    Down,
    Left,
    Right,
    Enter,
    Esc,
    Backspace,
    Other,
}

/// A key press; `plain` when no modifier key was held.
#[derive(Debug, Clone, Copy, PartialEq, Eq, Structural)]
pub struct KeyPress {
    pub code: Key,
    pub plain: bool,
}

/// A plain `q` quits, except in the text input, where it is typed.
pub open spec fn is_quit_key(key: KeyPress, active: ActiveBlock) -> bool {
    key.plain && key.code == Key::Char('q') && active != ActiveBlock::Input
}

/// A plain Escape releases the active pane.
pub open spec fn is_escape_key(key: KeyPress) -> bool {
    key.plain && key.code == Key::Esc
}

/// The direction a key stands for, if any.
pub open spec fn key_direction(code: Key) -> Option<Direction> {
    match code {
        Key::Up => Some(Direction::Up),
        Key::Down => Some(Direction::Down),
        Key::Left => Some(Direction::Left),
        Key::Right => Some(Direction::Right),
        _ => None,
    }
}

/// The focus after a key while no pane is active: direction keys move the
/// hovered pane and Enter makes it active.
pub open spec fn focus_after_key(f: Focus, code: Key) -> Focus {
    match key_direction(code) {
        Some(dir) => f.after_move(dir),
        None => if code == Key::Enter {
            f.after_enter()
        } else {
            f
        },
    }
}

/// A list after a key while it is active: Up and Down move the selection.
pub open spec fn list_after_key<T>(l: ConversationList<T>, code: Key) -> ConversationList<T> {
    let n = l.conversation_list@.len();
    match code {
        Key::Up => ConversationList {
            conversation_list: l.conversation_list,
            selected: moved_up(l.selected, n),
        },
        Key::Down => ConversationList {
            conversation_list: l.conversation_list,
            selected: moved_down(l.selected, n),
        },
        _ => l,
    }
}

/// What an active list answers to a key: Enter commits the selection, any
/// other key only asks for a redraw.
pub open spec fn list_answer<T: ListEntry>(
    l: ConversationList<T>,
    code: Key,
    r: Event<observer::Event>,
) -> bool {
    if code == Key::Enter {
        match r {
            Event::Change(e) => l.commits(Some(e)),
            Event::Tick => l.commits(None),
            _ => false,
        }
    } else {
        r is Tick
    }
}

/// The text input after a key while it is active: a character is inserted,
/// Backspace deletes; the cursor keys and Enter change nothing.
pub open spec fn input_after_key(m: InputModel, code: Key) -> InputModel {
    match code {
        Key::Char(c) => if m.chars.len() < MAX_INPUT_CHARS {
            inserted(m, c)
        } else {
            m
        },
        Key::Backspace => backspaced(m),
        _ => m,
    }
}

/// Moves the selection of an active list on Up and Down, and commits it on
/// Enter.
pub fn update_list_state<T: ListEntry>(list: &mut ConversationList<T>, code: Key) -> (r: Event<
    observer::Event,
>)
    ensures
        *final(list) == list_after_key(*old(list), code),
        list_answer(*old(list), code, r),
        old(list).wf() ==> final(list).wf(),
{
    match code {
        Key::Up => {
            list.move_up();
            Event::Tick
        },
        Key::Down => {
            list.move_down();
            Event::Tick
        },
        Key::Enter => match list.commit() {
            Some(e) => Event::Change(e),
            None => Event::Tick,
        },
        _ => Event::Tick,
    }
}

/// Edits the text input: a character is inserted at the cursor, Backspace
/// deletes before it; the cursor keys and Enter change nothing.
pub fn handle_user_input(input: &mut InputBuffer, code: Key)
    requires
        old(input).wf(),
    ensures
        final(input)@ == input_after_key(old(input)@, code),
        final(input).wf(),
{
    match code {
        Key::Char(c) => {
            if input.chars.len() < MAX_INPUT_CHARS {
                input.insert(c);
            }
        },
        Key::Backspace => {
            input.backspace();
        },
        _ => {},
    }
}

/// Moves the hovered pane on a direction key and enters it on Enter.
pub fn navigate_windows(focus: &mut Focus, code: Key)
    ensures
        *final(focus) == focus_after_key(*old(focus), code),
        old(focus).wf() ==> final(focus).wf(),
{
    match code {
        Key::Up => focus.move_hover(Direction::Up),
        Key::Down => focus.move_hover(Direction::Down),
        Key::Left => focus.move_hover(Direction::Left),
        Key::Right => focus.move_hover(Direction::Right),
        Key::Enter => focus.enter(),
        _ => {},
    }
}

/// The interface state: focus, the channel and user lists, the conversation
/// on display with its messages, and the text being typed.
pub struct App {
    pub focus: Focus,
    pub channel_list: ConversationList<Channel>,
    pub user_list: ConversationList<User>,
    pub conversation: Option<Conversation>,
    pub messages_list: Vec<Message>,
    pub input: InputBuffer,
}

impl App {
    /// Each part keeps its own invariant.
    pub open spec fn wf(&self) -> bool {
        &&& self.focus.wf()
        &&& self.channel_list.wf()
        &&& self.user_list.wf()
        &&& self.input.wf()
    }

    /// The state after leaving the active pane: nothing is active and no
    /// list keeps a selection.
    pub open spec fn exited(self) -> App {
        App {
            focus: self.focus.after_exit(),
            channel_list: ConversationList {
                conversation_list: self.channel_list.conversation_list,
                selected: None,
            },
            user_list: ConversationList {
                conversation_list: self.user_list.conversation_list,
                selected: None,
            },
            ..self
        }
    }

    /// The state `after` and the answer `r` that a key press `key` leads to
    /// from `self`.
    pub open spec fn handles_key(self, after: App, key: KeyPress, r: Event<observer::Event>) -> bool {
        if is_quit_key(key, self.focus.active) {
            r is Quit && after == self
        } else if is_escape_key(key) {
            r is Tick && after == self.exited()
        } else {
            match self.focus.active {
                ActiveBlock::Channels => {
                    &&& after == App { channel_list: after.channel_list, ..self }
                    &&& after.channel_list == list_after_key(self.channel_list, key.code)
                    &&& list_answer(self.channel_list, key.code, r)
                },
                ActiveBlock::Users => {
                    &&& after == App { user_list: after.user_list, ..self }
                    &&& after.user_list == list_after_key(self.user_list, key.code)
                    &&& list_answer(self.user_list, key.code, r)
                },
                ActiveBlock::Input => {
                    &&& after == App { input: after.input, ..self }
                    &&& after.input@ == input_after_key(self.input@, key.code)
                    &&& r is Tick
                },
                ActiveBlock::Nothing => {
                    &&& after == App { focus: focus_after_key(self.focus, key.code), ..self }
                    &&& r is Tick
                },
                _ => r is Tick && after == self,
            }
        }
    }

    /// The start state: Channels hovered, nothing active or selected, no
    /// conversation, nothing typed.
    pub fn new(channels: Vec<Channel>, users: Vec<User>) -> (r: App)
        ensures
            r.focus.hovered == ActiveBlock::Channels,
            r.focus.active == ActiveBlock::Nothing,
            r.channel_list.conversation_list == channels,
            r.channel_list.selected is None,
            r.user_list.conversation_list == users,
            r.user_list.selected is None,
            r.conversation is None,
            r.messages_list@.len() == 0,
            r.input@.chars.len() == 0,
            r.input@.index == 0,
            r.input@.column == 0,
            r.wf(),
    {
        App {
            focus: Focus::new(),
            channel_list: ConversationList::new(channels),
            user_list: ConversationList::new(users),
            conversation: None,
            messages_list: Vec::new(),
            input: InputBuffer::new(),
        }
    }

    /// Where the terminal cursor goes while the text input is active: after
    /// the typed text, `left` columns in (saturating at the last column), on
    /// row `top`. With any other pane active the cursor is hidden.
    pub fn cursor_position(&self, left: u16, top: u16) -> (r: Option<(u16, u16)>)
        ensures
            r == (if self.focus.active == ActiveBlock::Input {
                Some(
                    (
                        (if left + self.input.cursor_column <= u16::MAX {
                            (left + self.input.cursor_column) as u16
                        } else {
                            u16::MAX
                        }),
                        top,
                    ),
                )
            } else {
                None
            }),
    {
        if self.focus.active == ActiveBlock::Input {
            let room = (u16::MAX - left) as usize;
            let column = if self.input.cursor_column <= room {
                left + self.input.cursor_column as u16
            } else {
                u16::MAX
            };
            Some((column, top))
        } else {
            None
        }
    }

    /// Leaves the active pane and drops the selections of both lists.
    pub fn exit(&mut self)
        ensures
            *final(self) == old(self).exited(),
            old(self).wf() ==> final(self).wf(),
    {
        self.focus.exit();
        self.channel_list.clear_selection();
        self.user_list.clear_selection();
    }

    /// Shows another conversation, with the messages fetched for it. Name and
    /// identifier change together, and the messages are replaced wholesale.
    pub fn change_conversation(
        &mut self,
        conversation_id: String,
        conversation_name: String,
        messages: Vec<Message>,
    )
        ensures
            *final(self) == (App {
                conversation: Some(
                    Conversation { conversation_name: conversation_name, conversation_id: conversation_id },
                ),
                messages_list: messages,
                ..*old(self)
            }),
    {
        self.conversation = Some(Conversation::new(conversation_name, conversation_id));
        self.messages_list = messages;
    }

    /// Routes one key press: `q` quits outside the text input, Escape
    /// releases the active pane, and otherwise the active pane takes the key;
    /// with no pane active the key moves the focus.
    pub fn handle_key(&mut self, key: KeyPress) -> (r: Event<observer::Event>)
        requires
            old(self).wf(),
        ensures
            old(self).handles_key(*final(self), key, r),
            final(self).wf(),
    {
        if key.plain && key.code == Key::Char('q') && self.focus.active != ActiveBlock::Input {
            return Event::Quit;
        }
        if key.plain && key.code == Key::Esc {
            self.exit();
            return Event::Tick;
        }
        match self.focus.active {
            ActiveBlock::Channels => update_list_state(&mut self.channel_list, key.code),
            ActiveBlock::Users => update_list_state(&mut self.user_list, key.code),
            ActiveBlock::Input => {
                handle_user_input(&mut self.input, key.code);
                Event::Tick
            },
            ActiveBlock::Nothing => {
                navigate_windows(&mut self.focus, key.code);
                Event::Tick
            },
            _ => Event::Tick,
        }
    }

    /// Routes one event of the input side: key presses go to `handle_key`,
    /// a quit request quits, anything else only asks for a redraw.
    pub fn handle_event(&mut self, event: Event<KeyPress>) -> (r: Event<observer::Event>)
        requires
            old(self).wf(),
        ensures
            match event {
                Event::Input(key) => old(self).handles_key(*final(self), key, r),
                Event::Quit => r is Quit && *final(self) == *old(self),
                _ => r is Tick && *final(self) == *old(self),
            },
            final(self).wf(),
    {
        match event {
            Event::Input(key) => self.handle_key(key),
            Event::Quit => Event::Quit,
            _ => Event::Tick,
        }
    }
}

/// Leaving the active pane always leaves no pane active and no selection,
/// and leaving a second time changes nothing.
pub proof fn lemma_exit_idempotent(app: App)
    ensures
        app.exited().focus.active == ActiveBlock::Nothing,
        app.exited().focus.hovered == app.focus.hovered,
        app.exited().channel_list.selected is None,
        app.exited().user_list.selected is None,
        app.exited().exited() == app.exited(),
{
}

} // verus!
