//! Input events, as the session sees them, and the commands that the keys and the
//! mouse are bound to in each mode.

use vstd::prelude::*;

verus! {

/// The key of a key event.
#[derive(Clone, Copy, Debug, PartialEq, Eq, Structural)]
pub enum KeyCode {
    Char(char),
    Backspace,
    Delete,
    Left,
    Right,
    Up,
    Down,
    Home,
    End,
    PageUp,
    PageDown,
    Tab,
    Enter,
    Esc,
    /// Any other key.
    Other,
}

/// The modifier keys that were held during an event.
#[derive(Clone, Copy, Debug, PartialEq, Eq, Structural)]
pub struct KeyModifiers {
    pub shift: bool,
    pub control: bool,
    pub alt: bool,
    /// Whether any other modifier was held.
    pub other: bool,
}

/// What the mouse did.
#[derive(Clone, Copy, Debug, PartialEq, Eq, Structural)]
pub enum MouseKind {
    ScrollUp,
    ScrollDown,
    /// The left button went down.
    LeftDown,
    /// The middle button went down.
    MiddleDown,
    /// Anything else.
    Other,
}

/// An event of the input source.
#[derive(Clone, Copy, Debug, PartialEq, Eq, Structural)]
pub enum InputEvent {
    Key { code: KeyCode, modifiers: KeyModifiers },
    Mouse { kind: MouseKind, row: u16, modifiers: KeyModifiers },
    /// An event that the session does not react to.
    Other,
}

/// What the session loop has to do after an event.
#[derive(Clone, Copy, Debug, PartialEq, Eq, Structural)]
pub enum EventResponse {
    NoAction,
    UpdateUI,
    ExitProgram,
    ReturnSelectedItems,
}

/// What an event means in search mode.
#[derive(Clone, Copy, Debug, PartialEq, Eq, Structural)]
pub enum SearchCommand {
    Insert(char),
    Backspace,
    DeleteWordBackward,
    DeleteWordForward,
    DeleteToEnd,
    ClearQuery,
    MoveLeft,
    MoveRight,
    MoveHome,
    MoveEnd,
    JumpWordBackward,
    JumpWordForward,
    /// Clears the query, or leaves the program where the query is empty.
    Escape,
    /// Leaves the program without a selection.
    Interrupt,
    /// Leaves the program with the selection.
    Accept,
    Next,
    Previous,
    NextPage,
    PreviousPage,
    Home,
    End,
    /// Flips the selection of the highlighted entry and moves one entry down.
    ToggleAndNext,
    /// Flips the selection of the highlighted entry.
    ToggleCurrent,
    /// Flips the selection of the entry drawn on the given terminal row.
    Click(u16),
    /// Starts editing the text of the highlighted entry.
    EditCurrent,
    /// Starts editing an empty text.
    EditNew,
    Ignore,
}

/// What an event means in editing mode.
#[derive(Clone, Copy, Debug, PartialEq, Eq, Structural)]
pub enum EditCommand {
    Insert(char),
    Backspace,
    DeleteForward,
    DeleteWordBackward,
    DeleteWordForward,
    DeleteToEnd,
    Clear,
    MoveLeft,
    MoveRight,
    MoveHome,
    MoveEnd,
    JumpWordBackward,
    JumpWordForward,
    /// Adds the edited text to the pool and goes back to search mode.
    Commit,
    /// Goes back to search mode without adding anything.
    Cancel,
    /// Leaves the program without a selection.
    Interrupt,
    SuggestionUp,
    SuggestionDown,
    /// Replaces the edited text by the highlighted suggestion.
    AcceptSuggestion,
    Ignore,
}

impl KeyModifiers {
    /// No modifier at all.
    pub open spec fn is_none(self) -> bool {
        !self.shift && !self.control && !self.alt && !self.other
    }

    /// Shift and nothing else.
    pub open spec fn is_shift(self) -> bool {
        self.shift && !self.control && !self.alt && !self.other
    }

    /// Control and nothing else.
    pub open spec fn is_control(self) -> bool {
        !self.shift && self.control && !self.alt && !self.other
    }

    /// Alt and nothing else.
    pub open spec fn is_alt(self) -> bool {
        !self.shift && !self.control && self.alt && !self.other
    }

    pub fn none() -> (r: Self)
        ensures
            r.is_none(),
    {
        KeyModifiers { shift: false, control: false, alt: false, other: false }
    }

    pub fn only_shift() -> (r: Self)
        ensures
            r.is_shift(),
    {
        KeyModifiers { shift: true, control: false, alt: false, other: false }
    }

    pub fn only_control() -> (r: Self)
        ensures
            r.is_control(),
    {
        KeyModifiers { shift: false, control: true, alt: false, other: false }
    }

    pub fn only_alt() -> (r: Self)
        ensures
            r.is_alt(),
    {
        KeyModifiers { shift: false, control: false, alt: true, other: false }
    }

    pub fn holds_none(&self) -> (r: bool)
        ensures
            r == self.is_none(),
    {
        !self.shift && !self.control && !self.alt && !self.other
    }

    pub fn holds_only_shift(&self) -> (r: bool)
        ensures
            r == self.is_shift(),
    {
        self.shift && !self.control && !self.alt && !self.other
    }

    pub fn holds_only_control(&self) -> (r: bool)
        ensures
            r == self.is_control(),
    {
        !self.shift && self.control && !self.alt && !self.other
    }

    pub fn holds_only_alt(&self) -> (r: bool)
        ensures
            r == self.is_alt(),
    {
        !self.shift && !self.control && self.alt && !self.other
    }
}

/// The command that a scroll of the wheel means: one entry, or one page with shift or
/// control held; up the list for a scroll up, unless scrolling is inverted.
pub open spec fn scroll_command(up: bool, modifiers: KeyModifiers, invert_scroll: bool)
    -> SearchCommand {
    let paged = modifiers.shift || modifiers.control;
    if up != invert_scroll {
        if paged {
            SearchCommand::PreviousPage
        } else {
            SearchCommand::Previous
        }
    } else {
        if paged {
            SearchCommand::NextPage
        } else {
            SearchCommand::Next
        }
    }
}

/// The command that a key with control held means in search mode.
pub open spec fn search_control_command(code: KeyCode) -> SearchCommand {
    match code {
        KeyCode::Backspace => SearchCommand::DeleteWordBackward,
        KeyCode::Right => SearchCommand::JumpWordForward,
        KeyCode::Left => SearchCommand::JumpWordBackward,
        KeyCode::Delete => SearchCommand::DeleteWordForward,
        KeyCode::Char(c) => if c == 'c' {
            SearchCommand::Interrupt
        } else if c == 'u' {
            SearchCommand::ClearQuery
        } else if c == 'a' {
            SearchCommand::MoveHome
        } else if c == 'e' {
            SearchCommand::MoveEnd
        } else if c == 'k' {
            SearchCommand::DeleteToEnd
        } else if c == 'd' {
            SearchCommand::EditCurrent
        } else if c == 'n' {
            SearchCommand::EditNew
        } else {
            SearchCommand::Ignore
        },
        _ => SearchCommand::Ignore,
    }
}

/// The command that a key without a modifier means in search mode.
pub open spec fn search_plain_command(code: KeyCode) -> SearchCommand {
    match code {
        KeyCode::Char(c) => SearchCommand::Insert(c),
        KeyCode::Backspace => SearchCommand::Backspace,
        KeyCode::Right => SearchCommand::MoveRight,
        KeyCode::Left => SearchCommand::MoveLeft,
        KeyCode::Esc => SearchCommand::Escape,
        KeyCode::Enter => SearchCommand::Accept,
        KeyCode::Down => SearchCommand::Next,
        KeyCode::PageDown => SearchCommand::NextPage,
        KeyCode::End => SearchCommand::End,
        KeyCode::Up => SearchCommand::Previous,
        KeyCode::PageUp => SearchCommand::PreviousPage,
        KeyCode::Home => SearchCommand::Home,
        KeyCode::Tab => SearchCommand::ToggleAndNext,
        _ => SearchCommand::Ignore,
    }
}

/// The command that a key with alt held means in search mode.
pub open spec fn search_alt_command(code: KeyCode) -> SearchCommand {
    match code {
        KeyCode::Backspace => SearchCommand::DeleteWordBackward,
        KeyCode::Right => SearchCommand::JumpWordForward,
        KeyCode::Left => SearchCommand::JumpWordBackward,
        KeyCode::Delete => SearchCommand::DeleteWordForward,
        _ => SearchCommand::Ignore,
    }
}

/// What an event means in search mode.
pub open spec fn search_command(event: InputEvent, invert_scroll: bool) -> SearchCommand {
    match event {
        InputEvent::Key { code, modifiers } => if modifiers.is_none() {
            search_plain_command(code)
        } else if modifiers.is_shift() {
            match code {
                KeyCode::Char(c) => SearchCommand::Insert(c),
                _ => SearchCommand::Ignore,
            }
        } else if modifiers.is_control() {
            search_control_command(code)
        } else if modifiers.is_alt() {
            search_alt_command(code)
        } else {
            SearchCommand::Ignore
        },
        InputEvent::Mouse { kind, row, modifiers } => match kind {
            MouseKind::ScrollUp => scroll_command(true, modifiers, invert_scroll),
            MouseKind::ScrollDown => scroll_command(false, modifiers, invert_scroll),
            MouseKind::LeftDown => SearchCommand::Click(row),
            MouseKind::MiddleDown => SearchCommand::ToggleCurrent,
            MouseKind::Other => SearchCommand::Ignore,
        },
        InputEvent::Other => SearchCommand::Ignore,
    }
}

/// The command that a key without a modifier means in editing mode.
pub open spec fn edit_plain_command(code: KeyCode) -> EditCommand {
    match code {
        KeyCode::Char(c) => EditCommand::Insert(c),
        KeyCode::Backspace => EditCommand::Backspace,
        KeyCode::Delete => EditCommand::DeleteForward,
        KeyCode::Right => EditCommand::MoveRight,
        KeyCode::Left => EditCommand::MoveLeft,
        KeyCode::Home => EditCommand::MoveHome,
        KeyCode::End => EditCommand::MoveEnd,
        KeyCode::Enter => EditCommand::Commit,
        KeyCode::Up => EditCommand::SuggestionUp,
        KeyCode::Down => EditCommand::SuggestionDown,
        KeyCode::Tab => EditCommand::AcceptSuggestion,
        KeyCode::Esc => EditCommand::Cancel,
        _ => EditCommand::Ignore,
    }
}

/// The command that a key with shift held means in editing mode.
pub open spec fn edit_shift_command(code: KeyCode) -> EditCommand {
    match code {
        KeyCode::Char(c) => EditCommand::Insert(c),
        KeyCode::Backspace => EditCommand::DeleteWordBackward,
        KeyCode::Delete => EditCommand::DeleteWordForward,
        KeyCode::Right => EditCommand::JumpWordForward,
        KeyCode::Left => EditCommand::JumpWordBackward,
        _ => EditCommand::Ignore,
    }
}

/// The command that a key with control held means in editing mode.
pub open spec fn edit_control_command(code: KeyCode) -> EditCommand {
    match code {
        KeyCode::Backspace => EditCommand::DeleteWordBackward,
        KeyCode::Delete => EditCommand::DeleteWordForward,
        KeyCode::Right => EditCommand::JumpWordForward,
        KeyCode::Left => EditCommand::JumpWordBackward,
        KeyCode::Char(c) => if c == 'a' {
            EditCommand::MoveHome
        } else if c == 'e' {
            EditCommand::MoveEnd
        } else if c == 'u' {
            EditCommand::Clear
        } else if c == 'k' {
            EditCommand::DeleteToEnd
        } else if c == 'c' {
            EditCommand::Interrupt
        } else {
            EditCommand::Ignore
        },
        _ => EditCommand::Ignore,
    }
}

/// What an event means in editing mode. Only keys mean anything there.
pub open spec fn edit_command(event: InputEvent) -> EditCommand {
    match event {
        InputEvent::Key { code, modifiers } => if modifiers.is_none() {
            edit_plain_command(code)
        } else if modifiers.is_shift() {
            edit_shift_command(code)
        } else if modifiers.is_control() {
            edit_control_command(code)
        } else {
            EditCommand::Ignore
        },
        _ => EditCommand::Ignore,
    }
}

/// What an event means in search mode.
pub fn decode_search_event(event: InputEvent, invert_scroll: bool) -> (r: SearchCommand)
    ensures
        r == search_command(event, invert_scroll),
{
    match event {
        InputEvent::Key { code, modifiers } => {
            if modifiers.holds_none() {
                match code {
                    KeyCode::Char(c) => SearchCommand::Insert(c),
                    KeyCode::Backspace => SearchCommand::Backspace,
                    KeyCode::Right => SearchCommand::MoveRight,
                    KeyCode::Left => SearchCommand::MoveLeft,
                    KeyCode::Esc => SearchCommand::Escape,
                    KeyCode::Enter => SearchCommand::Accept,
                    KeyCode::Down => SearchCommand::Next,
                    KeyCode::PageDown => SearchCommand::NextPage,
                    KeyCode::End => SearchCommand::End,
                    KeyCode::Up => SearchCommand::Previous,
                    KeyCode::PageUp => SearchCommand::PreviousPage,
                    KeyCode::Home => SearchCommand::Home,
                    KeyCode::Tab => SearchCommand::ToggleAndNext,
                    _ => SearchCommand::Ignore,
                }
            } else if modifiers.holds_only_shift() {
                match code {
                    KeyCode::Char(c) => SearchCommand::Insert(c),
                    _ => SearchCommand::Ignore,
                }
            } else if modifiers.holds_only_control() {
                match code {
                    KeyCode::Backspace => SearchCommand::DeleteWordBackward,
                    KeyCode::Right => SearchCommand::JumpWordForward,
                    KeyCode::Left => SearchCommand::JumpWordBackward,
                    KeyCode::Delete => SearchCommand::DeleteWordForward,
                    KeyCode::Char(c) => {
                        if c == 'c' {
                            SearchCommand::Interrupt
                        } else if c == 'u' {
                            SearchCommand::ClearQuery
                        } else if c == 'a' {
                            SearchCommand::MoveHome
                        } else if c == 'e' {
                            SearchCommand::MoveEnd
                        } else if c == 'k' {
                            SearchCommand::DeleteToEnd
                        } else if c == 'd' {
                            SearchCommand::EditCurrent
                        } else if c == 'n' {
                            SearchCommand::EditNew
                        } else {
                            SearchCommand::Ignore
                        }
                    },
                    _ => SearchCommand::Ignore,
                }
            } else if modifiers.holds_only_alt() {
                match code {
                    KeyCode::Backspace => SearchCommand::DeleteWordBackward,
                    KeyCode::Right => SearchCommand::JumpWordForward,
                    KeyCode::Left => SearchCommand::JumpWordBackward,
                    KeyCode::Delete => SearchCommand::DeleteWordForward,
                    _ => SearchCommand::Ignore,
                }
            } else {
                SearchCommand::Ignore
            }
        },
        InputEvent::Mouse { kind, row, modifiers } => {
            let paged = modifiers.shift || modifiers.control;
            match kind {
                MouseKind::ScrollUp => {
                    if !invert_scroll {
                        if paged {
                            SearchCommand::PreviousPage
                        } else {
                            SearchCommand::Previous
                        }
                    } else if paged {
                        SearchCommand::NextPage
                    } else {
                        SearchCommand::Next
                    }
                },
                MouseKind::ScrollDown => {
                    if invert_scroll {
                        if paged {
                            SearchCommand::PreviousPage
                        } else {
                            SearchCommand::Previous
                        }
                    } else if paged {
                        SearchCommand::NextPage
                    } else {
                        SearchCommand::Next
                    }
                },
                MouseKind::LeftDown => SearchCommand::Click(row),
                MouseKind::MiddleDown => SearchCommand::ToggleCurrent,
                MouseKind::Other => SearchCommand::Ignore,
            }
        },
        InputEvent::Other => SearchCommand::Ignore,
    }
}

/// What an event means in editing mode.
pub fn decode_edit_event(event: InputEvent) -> (r: EditCommand)
    ensures
        r == edit_command(event),
{
    match event {
        InputEvent::Key { code, modifiers } => {
            if modifiers.holds_none() {
                match code {
                    KeyCode::Char(c) => EditCommand::Insert(c),
                    KeyCode::Backspace => EditCommand::Backspace,
                    KeyCode::Delete => EditCommand::DeleteForward,
                    KeyCode::Right => EditCommand::MoveRight,
                    KeyCode::Left => EditCommand::MoveLeft,
                    KeyCode::Home => EditCommand::MoveHome,
                    KeyCode::End => EditCommand::MoveEnd,
                    KeyCode::Enter => EditCommand::Commit,
                    KeyCode::Up => EditCommand::SuggestionUp,
                    KeyCode::Down => EditCommand::SuggestionDown,
                    KeyCode::Tab => EditCommand::AcceptSuggestion,
                    KeyCode::Esc => EditCommand::Cancel,
                    _ => EditCommand::Ignore,
                }
            } else if modifiers.holds_only_shift() {
                match code {
                    KeyCode::Char(c) => EditCommand::Insert(c),
                    KeyCode::Backspace => EditCommand::DeleteWordBackward,
                    KeyCode::Delete => EditCommand::DeleteWordForward,
                    KeyCode::Right => EditCommand::JumpWordForward,
                    KeyCode::Left => EditCommand::JumpWordBackward,
                    _ => EditCommand::Ignore,
                }
            } else if modifiers.holds_only_control() {
                match code {
                    KeyCode::Backspace => EditCommand::DeleteWordBackward,
                    KeyCode::Delete => EditCommand::DeleteWordForward,
                    KeyCode::Right => EditCommand::JumpWordForward,
                    KeyCode::Left => EditCommand::JumpWordBackward,
                    KeyCode::Char(c) => {
                        if c == 'a' {
                            EditCommand::MoveHome
                        } else if c == 'e' {
                            EditCommand::MoveEnd
                        } else if c == 'u' {
                            EditCommand::Clear
                        } else if c == 'k' {
                            EditCommand::DeleteToEnd
                        } else if c == 'c' {
                            EditCommand::Interrupt
                        } else {
                            EditCommand::Ignore
                        }
                    },
                    _ => EditCommand::Ignore,
                }
            } else {
                EditCommand::Ignore
            }
        },
        _ => EditCommand::Ignore,
    }
}

} // verus!
