//! The prompt bar: one line of input with a cursor.

use crate::llm::provider::opt_text;
use crate::text::{chars_of, string_of};
use crate::ui::tui::types::{InlineTextStyle, InlineTheme};
use vstd::prelude::*;

verus! {

/// The prefix shown before the input when none is set.
pub const DEFAULT_PROMPT_PREFIX: &'static str = "> ";

/// A key, as the terminal reports it.
#[derive(Clone, Copy, Debug, PartialEq, Eq, Structural)]
pub enum Key {
    Char(char),
    Ctrl(char),
    Alt(char),
    Backspace,
    Delete,
    Left,
    Right,
    Up,
    Down,
    Home,
    End,
    PageUp,
    PageDown,
    Esc,
    Other,
}

/// A step of scrolling.
#[derive(Clone, Copy, Debug, PartialEq, Eq, Structural)]
pub enum ScrollAction {
    LineUp,
    LineDown,
    PageUp,
    PageDown,
}

/// Model of an [`Action`].
pub enum ActionV {
    Nothing,
    Redraw,
    Submit(Seq<char>),
    Cancel,
    Exit,
    Interrupt,
    Scroll(ScrollAction),
}

/// What a key asks of the session.
#[derive(Debug)]
pub enum Action {
    Nothing,
    Redraw,
    Submit(String),
    Cancel,
    Exit,
    Interrupt,
    Scroll(ScrollAction),
}

impl View for Action {
    type V = ActionV;

    open spec fn view(&self) -> ActionV {
        match self {
            Action::Nothing => ActionV::Nothing,
            Action::Redraw => ActionV::Redraw,
            Action::Submit(text) => ActionV::Submit(text@),
            Action::Cancel => ActionV::Cancel,
            Action::Exit => ActionV::Exit,
            Action::Interrupt => ActionV::Interrupt,
            Action::Scroll(step) => ActionV::Scroll(*step),
        }
    }
}

/// Model of an [`InputBuffer`]: the text and the number of characters
/// before the cursor.
pub struct InputBufferV {
    pub text: Seq<char>,
    pub cursor: int,
}

impl InputBufferV {
    /// Whether the cursor is within the text.
    pub open spec fn wf(self) -> bool {
        0 <= self.cursor <= self.text.len()
    }

    pub open spec fn empty() -> InputBufferV {
        InputBufferV { text: Seq::empty(), cursor: 0 }
    }

    /// The place of the cursor, held within the text.
    pub open spec fn at(self) -> int {
        if self.cursor < 0 {
            0
        } else if self.cursor > self.text.len() {
            self.text.len() as int
        } else {
            self.cursor
        }
    }

    /// The buffer after a character is typed at the cursor.
    pub open spec fn insert(self, c: char) -> InputBufferV {
        InputBufferV { text: self.text.insert(self.at(), c), cursor: self.at() + 1 }
    }

    /// The buffer after the character before the cursor is removed.
    pub open spec fn backspace(self) -> InputBufferV {
        if self.at() == 0 {
            InputBufferV { cursor: 0, ..self }
        } else {
            InputBufferV { text: self.text.remove(self.at() - 1), cursor: self.at() - 1 }
        }
    }

    /// The buffer after the character at the cursor is removed.
    pub open spec fn delete(self) -> InputBufferV {
        if self.at() >= self.text.len() {
            InputBufferV { cursor: self.at(), ..self }
        } else {
            InputBufferV { text: self.text.remove(self.at()), cursor: self.at() }
        }
    }

    pub open spec fn move_left(self) -> InputBufferV {
        if self.at() == 0 {
            InputBufferV { cursor: 0, ..self }
        } else {
            InputBufferV { cursor: self.at() - 1, ..self }
        }
    }

    pub open spec fn move_right(self) -> InputBufferV {
        if self.at() >= self.text.len() {
            InputBufferV { cursor: self.at(), ..self }
        } else {
            InputBufferV { cursor: self.at() + 1, ..self }
        }
    }

    pub open spec fn move_home(self) -> InputBufferV {
        InputBufferV { cursor: 0, ..self }
    }

    pub open spec fn move_end(self) -> InputBufferV {
        InputBufferV { cursor: self.text.len() as int, ..self }
    }
}

/// Every edit leaves the cursor within the text.
pub proof fn lemma_edits_keep_cursor_in_text(buffer: InputBufferV, c: char)
    ensures
        buffer.insert(c).wf(),
        buffer.backspace().wf(),
        buffer.delete().wf(),
        buffer.move_left().wf(),
        buffer.move_right().wf(),
        buffer.move_home().wf(),
        buffer.move_end().wf(),
{
}

/// A line of text with a cursor, which counts the characters before it.
#[derive(Debug)]
pub struct InputBuffer {
    pub text: Vec<char>,
    pub cursor: usize,
}

impl View for InputBuffer {
    type V = InputBufferV;

    open spec fn view(&self) -> InputBufferV {
        InputBufferV { text: self.text@, cursor: self.cursor as int }
    }
}

impl InputBuffer {
    pub fn new() -> (r: InputBuffer)
        ensures
            r@ == InputBufferV::empty(),
    {
        InputBuffer { text: Vec::new(), cursor: 0 }
    }

    /// A buffer that holds `text`, with the cursor after `cursor`
    /// characters, or at the end where the text is shorter.
    pub fn with_text(text: &str, cursor: usize) -> (r: InputBuffer)
        ensures
            r@.text == text@,
            r@.cursor == (InputBufferV { text: text@, cursor: cursor as int }).at(),
    {
        let chars = chars_of(text);
        let at = if cursor > chars.len() {
            chars.len()
        } else {
            cursor
        };
        InputBuffer { text: chars, cursor: at }
    }

    fn place(&self) -> (r: usize)
        ensures
            r == self@.at(),
            r <= self.text@.len(),
    {
        if self.cursor > self.text.len() {
            self.text.len()
        } else {
            self.cursor
        }
    }

    pub fn is_empty(&self) -> (r: bool)
        ensures
            r == (self@.text.len() == 0),
    {
        self.text.len() == 0
    }

    /// The text.
    pub fn text(&self) -> (r: String)
        ensures
            r@ == self@.text,
    {
        string_of(self.text.as_slice())
    }

    /// The number of characters before the cursor.
    pub fn cursor(&self) -> (r: usize)
        ensures
            r == self@.cursor,
    {
        self.cursor
    }

    pub fn clear(&mut self)
        ensures
            final(self)@ == InputBufferV::empty(),
    {
        self.cursor = 0;
        self.text = Vec::new();
    }

    pub fn insert(&mut self, ch: char)
        requires
            old(self)@.text.len() < usize::MAX,
        ensures
            final(self)@ == old(self)@.insert(ch),
    {
        let at = self.place();
        self.text.insert(at, ch);
        self.cursor = at + 1;
    }

    pub fn backspace(&mut self)
        ensures
            final(self)@ == old(self)@.backspace(),
    {
        let at = self.place();
        if at == 0 {
            self.cursor = 0;
            return ;
        }
        self.text.remove(at - 1);
        self.cursor = at - 1;
    }

    pub fn delete(&mut self)
        ensures
            final(self)@ == old(self)@.delete(),
    {
        let at = self.place();
        self.cursor = at;
        if at >= self.text.len() {
            return ;
        }
        self.text.remove(at);
    }

    pub fn move_left(&mut self)
        ensures
            final(self)@ == old(self)@.move_left(),
    {
        let at = self.place();
        if at == 0 {
            self.cursor = 0;
            return ;
        }
        self.cursor = at - 1;
    }

    pub fn move_right(&mut self)
        ensures
            final(self)@ == old(self)@.move_right(),
    {
        let at = self.place();
        if at >= self.text.len() {
            self.cursor = at;
            return ;
        }
        self.cursor = at + 1;
    }

    pub fn move_home(&mut self)
        ensures
            final(self)@ == old(self)@.move_home(),
    {
        self.cursor = 0;
    }

    pub fn move_end(&mut self)
        ensures
            final(self)@ == old(self)@.move_end(),
    {
        self.cursor = self.text.len();
    }

    /// The text before the cursor.
    pub fn prefix(&self) -> (r: String)
        ensures
            r@ == self@.text.subrange(0, self@.at()),
    {
        let at = self.place();
        let before = crate::text::slice_chars(self.text.as_slice(), 0, at);
        string_of(before.as_slice())
    }
}

/// Model of a [`PromptBar`].
pub struct PromptBarV {
    pub input: InputBufferV,
    pub prompt_prefix: Seq<char>,
    pub prompt_style: InlineTextStyle,
    pub placeholder_hint: Option<Seq<char>>,
    pub placeholder_style: InlineTextStyle,
    pub theme: InlineTheme,
    pub cursor_visible: bool,
    pub input_enabled: bool,
}

/// The prompt bar: the input, the prefix before it, the hint shown while
/// it is empty, and whether it takes keys.
#[derive(Debug)]
pub struct PromptBar {
    pub input: InputBuffer,
    pub prompt_prefix: String,
    pub prompt_style: InlineTextStyle,
    pub placeholder_hint: Option<String>,
    pub placeholder_style: InlineTextStyle,
    pub theme: InlineTheme,
    pub cursor_visible: bool,
    pub input_enabled: bool,
}

impl View for PromptBar {
    type V = PromptBarV;

    open spec fn view(&self) -> PromptBarV {
        PromptBarV {
            input: self.input@,
            prompt_prefix: self.prompt_prefix@,
            prompt_style: self.prompt_style,
            placeholder_hint: opt_text(self.placeholder_hint),
            placeholder_style: self.placeholder_style,
            theme: self.theme,
            cursor_visible: self.cursor_visible,
            input_enabled: self.input_enabled,
        }
    }
}

impl PromptBarV {
    /// What a key does to the bar. A bar that takes no input ignores every
    /// key. Otherwise: Ctrl-C interrupts, Ctrl-D exits, Ctrl-U clears the
    /// input, Enter submits it and clears it, a character is typed at the
    /// cursor, Backspace and Delete remove one, the arrows and Home and End
    /// move the cursor, Up, Down and the page keys scroll, Esc cancels.
    pub open spec fn after_key(self, key: Key) -> PromptBarV {
        if !self.input_enabled {
            self
        } else {
            match key {
                Key::Ctrl(c) => if c == 'u' || c == 'U' {
                    PromptBarV { input: InputBufferV::empty(), ..self }
                } else if c == 'm' {
                    PromptBarV { input: InputBufferV::empty(), ..self }
                } else if c == 'h' {
                    PromptBarV { input: self.input.backspace(), ..self }
                } else {
                    self
                },
                Key::Char(c) => if c == '\n' {
                    PromptBarV { input: InputBufferV::empty(), ..self }
                } else if self.input.text.len() < usize::MAX {
                    PromptBarV { input: self.input.insert(c), ..self }
                } else {
                    self
                },
                Key::Backspace => PromptBarV { input: self.input.backspace(), ..self },
                Key::Delete => PromptBarV { input: self.input.delete(), ..self },
                Key::Left => PromptBarV { input: self.input.move_left(), ..self },
                Key::Right => PromptBarV { input: self.input.move_right(), ..self },
                Key::Home => PromptBarV { input: self.input.move_home(), ..self },
                Key::End => PromptBarV { input: self.input.move_end(), ..self },
                _ => self,
            }
        }
    }

    /// What a key asks of the session.
    pub open spec fn action_for(self, key: Key) -> ActionV {
        if !self.input_enabled {
            ActionV::Nothing
        } else {
            match key {
                Key::Ctrl(c) => if c == 'c' || c == 'C' {
                    ActionV::Interrupt
                } else if c == 'd' || c == 'D' {
                    ActionV::Exit
                } else if c == 'u' || c == 'U' {
                    ActionV::Redraw
                } else if c == 'm' {
                    ActionV::Submit(self.input.text)
                } else if c == 'h' {
                    ActionV::Redraw
                } else {
                    ActionV::Nothing
                },
                Key::Char(c) => if c == '\n' {
                    ActionV::Submit(self.input.text)
                } else {
                    ActionV::Redraw
                },
                Key::Backspace => ActionV::Redraw,
                Key::Delete => ActionV::Redraw,
                Key::Left => ActionV::Redraw,
                Key::Right => ActionV::Redraw,
                Key::Home => ActionV::Redraw,
                Key::End => ActionV::Redraw,
                Key::Up => ActionV::Scroll(ScrollAction::LineUp),
                Key::Down => ActionV::Scroll(ScrollAction::LineDown),
                Key::PageUp => ActionV::Scroll(ScrollAction::PageUp),
                Key::PageDown => ActionV::Scroll(ScrollAction::PageDown),
                Key::Esc => ActionV::Cancel,
                _ => ActionV::Nothing,
            }
        }
    }
}

impl PromptBar {
    /// A bar with an empty input that takes keys and shows its cursor.
    pub fn new(theme: InlineTheme, placeholder: Option<String>) -> (r: PromptBar)
        ensures
            r@ == (PromptBarV {
                input: InputBufferV::empty(),
                prompt_prefix: DEFAULT_PROMPT_PREFIX@,
                prompt_style: InlineTextStyle::plain(),
                placeholder_hint: opt_text(placeholder),
                placeholder_style: InlineTextStyle::plain(),
                theme,
                cursor_visible: true,
                input_enabled: true,
            }),
    {
        PromptBar {
            input: InputBuffer::new(),
            prompt_prefix: DEFAULT_PROMPT_PREFIX.to_owned(),
            prompt_style: InlineTextStyle { color: None, bold: false, italic: false },
            placeholder_hint: placeholder,
            placeholder_style: InlineTextStyle { color: None, bold: false, italic: false },
            theme,
            cursor_visible: true,
            input_enabled: true,
        }
    }

    pub fn set_theme(&mut self, theme: InlineTheme)
        ensures
            final(self)@ == (PromptBarV { theme, ..old(self)@ }),
    {
        self.theme = theme;
    }

    pub fn set_prompt(&mut self, prefix: String, style: InlineTextStyle)
        ensures
            final(self)@ == (PromptBarV {
                prompt_prefix: prefix@,
                prompt_style: style,
                ..old(self)@
            }),
    {
        self.prompt_prefix = prefix;
        self.prompt_style = style;
    }

    /// Sets the hint; the style of the hint changes only where one is
    /// given.
    pub fn set_placeholder(&mut self, hint: Option<String>, style: Option<InlineTextStyle>)
        ensures
            final(self)@ == (PromptBarV {
                placeholder_hint: opt_text(hint),
                placeholder_style: match style {
                    Some(s) => s,
                    None => old(self)@.placeholder_style,
                },
                ..old(self)@
            }),
    {
        self.placeholder_hint = hint;
        if let Some(style) = style {
            self.placeholder_style = style;
        }
    }

    pub fn set_cursor_visible(&mut self, visible: bool)
        ensures
            final(self)@ == (PromptBarV { cursor_visible: visible, ..old(self)@ }),
    {
        self.cursor_visible = visible;
    }

    pub fn set_input_enabled(&mut self, enabled: bool)
        ensures
            final(self)@ == (PromptBarV { input_enabled: enabled, ..old(self)@ }),
    {
        self.input_enabled = enabled;
    }

    pub fn clear_input(&mut self)
        ensures
            final(self)@ == (PromptBarV { input: InputBufferV::empty(), ..old(self)@ }),
    {
        self.input.clear();
    }

    /// Takes a key and says what it asks of the session.
    pub fn handle_key(&mut self, key: Key) -> (r: Action)
        ensures
            r@ == old(self)@.action_for(key),
            final(self)@ == old(self)@.after_key(key),
    {
        if !self.input_enabled {
            return Action::Nothing;
        }
        match key {
            Key::Ctrl(c) => {
                if c == 'c' || c == 'C' {
                    Action::Interrupt
                } else if c == 'd' || c == 'D' {
                    Action::Exit
                } else if c == 'u' || c == 'U' {
                    self.clear_input();
                    Action::Redraw
                } else if c == 'm' {
                    let text = self.input.text();
                    self.clear_input();
                    Action::Submit(text)
                } else if c == 'h' {
                    self.input.backspace();
                    Action::Redraw
                } else {
                    Action::Nothing
                }
            },
            Key::Char(c) => {
                if c == '\n' {
                    let text = self.input.text();
                    self.clear_input();
                    Action::Submit(text)
                } else {
                    if self.input.text.len() < usize::MAX {
                        self.input.insert(c);
                    }
                    Action::Redraw
                }
            },
            Key::Backspace => {
                self.input.backspace();
                Action::Redraw
            },
            Key::Delete => {
                self.input.delete();
                Action::Redraw
            },
            Key::Left => {
                self.input.move_left();
                Action::Redraw
            },
            Key::Right => {
                self.input.move_right();
                Action::Redraw
            },
            Key::Home => {
                self.input.move_home();
                Action::Redraw
            },
            Key::End => {
                self.input.move_end();
                Action::Redraw
            },
            Key::Up => Action::Scroll(ScrollAction::LineUp),
            Key::Down => Action::Scroll(ScrollAction::LineDown),
            Key::PageUp => Action::Scroll(ScrollAction::PageUp),
            Key::PageDown => Action::Scroll(ScrollAction::PageDown),
            Key::Esc => Action::Cancel,
            _ => Action::Nothing,
        }
    }

    /// Whether the cursor is to be drawn.
    pub fn shows_cursor(&self) -> (r: bool)
        ensures
            r == (self@.cursor_visible && self@.input_enabled),
    {
        self.cursor_visible && self.input_enabled
    }
}

} // verus!
