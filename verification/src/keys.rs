use vstd::prelude::*;

use crate::tools::{spec_is_text_tool, Tool};

verus! {

/// A key press, as far as the editor tells keys apart.
#[derive(Debug, Clone, Copy, PartialEq, Eq, Structural)]
pub enum EditorKey {
    /// A key that types a character (its first character)
    Character(char),
    /// Function key F1 .. F12 (`Function(1)` is F1)
    Function(u8),
    ArrowUp,
    ArrowDown,
    ArrowLeft,
    ArrowRight,
    Home,
    End,
    PageUp,
    PageDown,
    Backspace,
    Delete,
    Enter,
    Tab,
    Insert,
    Space,
    Escape,
    /// Any other key
    Other,
}

/// The modifier keys held with a key press.
#[derive(Debug, Clone, Copy, PartialEq, Eq, Structural)]
pub struct KeyModifiers {
    pub shift: bool,
    pub control: bool,
    pub alt: bool,
}

/// How the caret moves.
#[derive(Debug, Clone, Copy, PartialEq, Eq, Structural)]
pub enum CaretMove {
    Up(i32),
    Down(i32),
    Left(i32),
    Right(i32),
    /// To column 0
    LineStart,
    /// To the last column of the buffer
    LineEnd,
}

/// What a key press asks of the document.
#[derive(Debug, Clone, Copy, PartialEq, Eq, Structural)]
pub enum KeyAction {
    /// Nothing
    Ignore,
    /// Type this character at the caret (commits)
    TypeChar(char),
    /// Type the character of this F-key slot (commits)
    TypeFKey(usize),
    /// Switch to this F-key set
    SelectFKeySet(usize),
    /// Move the caret
    MoveCaret(CaretMove),
    /// Erase the selected cells (commits)
    EraseSelection,
    /// Delete backwards (commits)
    Backspace,
    /// Delete forwards (commits)
    DeleteChar,
    /// Start a new line (commits)
    NewLine,
    /// Jump to the next tab stop
    Tab,
    /// Jump to the previous tab stop
    ReverseTab,
    /// Toggle insert mode
    ToggleInsert,
    /// Clear the selection
    ClearSelection,
    /// Delete with nothing selected in the Select tool: nothing changes, but
    /// the key still counts as an edit
    DeleteNothing,
}

/// Whether the action counts as an edit of the document.
pub open spec fn spec_commits(a: KeyAction) -> bool {
    match a {
        KeyAction::TypeChar(_) | KeyAction::TypeFKey(_) | KeyAction::EraseSelection | KeyAction::Backspace
        | KeyAction::DeleteChar | KeyAction::NewLine | KeyAction::DeleteNothing => true,
        _ => false,
    }
}

/// Whether the action counts as an edit of the document.
pub fn commits(a: KeyAction) -> (r: bool)
    ensures
        r == spec_commits(a),
{
    match a {
        KeyAction::TypeChar(_) | KeyAction::TypeFKey(_) | KeyAction::EraseSelection | KeyAction::Backspace
        | KeyAction::DeleteChar | KeyAction::NewLine | KeyAction::DeleteNothing => true,
        _ => false,
    }
}

/// What F-key `n` (1 to 12) does with a text tool: Alt+F1 .. Alt+F10 select
/// the sets 0 to 9, Shift+Alt+F1 .. F10 the sets 10 to 19; otherwise the
/// key types its slot.
pub open spec fn spec_fkey_action(n: int, m: KeyModifiers) -> KeyAction {
    let slot = n - 1;
    if m.alt && slot < 10 {
        KeyAction::SelectFKeySet((if m.shift {
            10int
        } else {
            0int
        } + slot) as usize)
    } else {
        KeyAction::TypeFKey(slot as usize)
    }
}

/// What a key does with a text tool (Click or Font).
pub open spec fn spec_text_tool_key(key: EditorKey, m: KeyModifiers, something_selected: bool) -> KeyAction {
    match key {
        EditorKey::Character(c) => if !m.control && !m.alt {
            KeyAction::TypeChar(c)
        } else {
            KeyAction::Ignore
        },
        EditorKey::Function(n) => if 1 <= n <= 12 {
            spec_fkey_action(n as int, m)
        } else {
            KeyAction::Ignore
        },
        EditorKey::ArrowUp => KeyAction::MoveCaret(CaretMove::Up(1)),
        EditorKey::ArrowDown => KeyAction::MoveCaret(CaretMove::Down(1)),
        EditorKey::ArrowLeft => KeyAction::MoveCaret(CaretMove::Left(1)),
        EditorKey::ArrowRight => KeyAction::MoveCaret(CaretMove::Right(1)),
        EditorKey::Home => KeyAction::MoveCaret(CaretMove::LineStart),
        EditorKey::End => KeyAction::MoveCaret(CaretMove::LineEnd),
        EditorKey::PageUp => KeyAction::MoveCaret(CaretMove::Up(24)),
        EditorKey::PageDown => KeyAction::MoveCaret(CaretMove::Down(24)),
        EditorKey::Backspace => if something_selected {
            KeyAction::EraseSelection
        } else {
            KeyAction::Backspace
        },
        EditorKey::Delete => if something_selected {
            KeyAction::EraseSelection
        } else {
            KeyAction::DeleteChar
        },
        EditorKey::Enter => KeyAction::NewLine,
        EditorKey::Tab => if m.shift {
            KeyAction::ReverseTab
        } else {
            KeyAction::Tab
        },
        EditorKey::Insert => KeyAction::ToggleInsert,
        EditorKey::Space => KeyAction::TypeChar(' '),
        EditorKey::Escape => KeyAction::ClearSelection,
        EditorKey::Other => KeyAction::Ignore,
    }
}

/// What a key does with the active tool: text tools type and move the
/// caret, the Select tool deletes and clears its selection, other tools
/// ignore keys.
pub open spec fn spec_tool_key(tool: Tool, key: EditorKey, m: KeyModifiers, something_selected: bool) -> KeyAction {
    if spec_is_text_tool(tool) {
        spec_text_tool_key(key, m, something_selected)
    } else if tool == Tool::Select {
        match key {
            EditorKey::Delete | EditorKey::Backspace => if something_selected {
                KeyAction::EraseSelection
            } else {
                KeyAction::DeleteNothing
            },
            EditorKey::Escape => KeyAction::ClearSelection,
            _ => KeyAction::Ignore,
        }
    } else {
        KeyAction::Ignore
    }
}

/// What a key press does with the active tool.
pub fn tool_key_action(tool: Tool, key: EditorKey, m: KeyModifiers, something_selected: bool) -> (r: KeyAction)
    ensures
        r == spec_tool_key(tool, key, m, something_selected),
        (tool == Tool::Click || tool == Tool::Font) ==> {
            &&& key == EditorKey::ArrowLeft ==> r == KeyAction::MoveCaret(CaretMove::Left(1))
            &&& key == EditorKey::ArrowRight ==> r == KeyAction::MoveCaret(CaretMove::Right(1))
            &&& key == EditorKey::ArrowUp ==> r == KeyAction::MoveCaret(CaretMove::Up(1))
            &&& key == EditorKey::ArrowDown ==> r == KeyAction::MoveCaret(CaretMove::Down(1))
        },
{
    match tool {
        Tool::Click | Tool::Font => match key {
            EditorKey::Character(c) => {
                if !m.control && !m.alt {
                    KeyAction::TypeChar(c)
                } else {
                    KeyAction::Ignore
                }
            },
            EditorKey::Function(n) => {
                if 1 <= n && n <= 12 {
                    let slot = (n - 1) as usize;
                    if m.alt && slot < 10 {
                        let base: usize = if m.shift {
                            10
                        } else {
                            0
                        };
                        KeyAction::SelectFKeySet(base + slot)
                    } else {
                        KeyAction::TypeFKey(slot)
                    }
                } else {
                    KeyAction::Ignore
                }
            },
            EditorKey::ArrowUp => KeyAction::MoveCaret(CaretMove::Up(1)),
            EditorKey::ArrowDown => KeyAction::MoveCaret(CaretMove::Down(1)),
            EditorKey::ArrowLeft => KeyAction::MoveCaret(CaretMove::Left(1)),
            EditorKey::ArrowRight => KeyAction::MoveCaret(CaretMove::Right(1)),
            EditorKey::Home => KeyAction::MoveCaret(CaretMove::LineStart),
            EditorKey::End => KeyAction::MoveCaret(CaretMove::LineEnd),
            EditorKey::PageUp => KeyAction::MoveCaret(CaretMove::Up(24)),
            EditorKey::PageDown => KeyAction::MoveCaret(CaretMove::Down(24)),
            EditorKey::Backspace => {
                if something_selected {
                    KeyAction::EraseSelection
                } else {
                    KeyAction::Backspace
                }
            },
            EditorKey::Delete => {
                if something_selected {
                    KeyAction::EraseSelection
                } else {
                    KeyAction::DeleteChar
                }
            },
            EditorKey::Enter => KeyAction::NewLine,
            EditorKey::Tab => {
                if m.shift {
                    KeyAction::ReverseTab
                } else {
                    KeyAction::Tab
                }
            },
            EditorKey::Insert => KeyAction::ToggleInsert,
            EditorKey::Space => KeyAction::TypeChar(' '),
            EditorKey::Escape => KeyAction::ClearSelection,
            EditorKey::Other => KeyAction::Ignore,
        },
        Tool::Select => match key {
            EditorKey::Delete | EditorKey::Backspace => {
                if something_selected {
                    KeyAction::EraseSelection
                } else {
                    KeyAction::DeleteNothing
                }
            },
            EditorKey::Escape => KeyAction::ClearSelection,
            _ => KeyAction::Ignore,
        },
        _ => KeyAction::Ignore,
    }
}

/// What a key press does before the tool sees it.
#[derive(Debug, Clone, Copy, PartialEq, Eq, Structural)]
pub enum KeyRouting {
    /// Escape closes the open brush character table, and that is all
    CloseCharTable,
    /// The key may be a tool shortcut; if it is none, it goes to the tool
    ShortcutThenTool,
    /// The key goes straight to the tool
    ToTool,
}

/// Routing of a key press: the open brush character table takes Escape
/// first; tool shortcuts are single characters typed without Ctrl or Alt
/// while no text tool is active (text tools type them instead).
pub fn route_key(char_table_open: bool, tool: Tool, key: EditorKey, m: KeyModifiers) -> (r: KeyRouting)
    ensures
        char_table_open && key == EditorKey::Escape ==> r == KeyRouting::CloseCharTable,
        !(char_table_open && key == EditorKey::Escape) ==> r == if !spec_is_text_tool(tool) && !m.control && !m.alt
            && key is Character {
            KeyRouting::ShortcutThenTool
        } else {
            KeyRouting::ToTool
        },
{
    if char_table_open && key == EditorKey::Escape {
        return KeyRouting::CloseCharTable;
    }
    let skip_shortcuts = match tool {
        Tool::Click | Tool::Font => true,
        _ => false,
    };
    let is_char = match key {
        EditorKey::Character(_) => true,
        _ => false,
    };
    if !skip_shortcuts && !m.control && !m.alt && is_char {
        KeyRouting::ShortcutThenTool
    } else {
        KeyRouting::ToTool
    }
}

// ---------------------------------------------------------------------------
// What a key press reports
// ---------------------------------------------------------------------------

/// The kind of edit a key press commits.
#[derive(Debug, Clone, Copy, PartialEq, Eq, Structural)]
pub enum CommitKind {
    TypeCharacter,
    TypeFKey,
    Backspace,
    Delete,
    NewLine,
}

impl CommitKind {
    /// The description of the edit.
    pub fn description(&self) -> (r: &'static str)
        ensures
            *self == CommitKind::TypeCharacter ==> r@ == "Type character"@,
            *self == CommitKind::TypeFKey ==> r@ == "Type fkey"@,
            *self == CommitKind::Backspace ==> r@ == "Backspace"@,
            *self == CommitKind::Delete ==> r@ == "Delete"@,
            *self == CommitKind::NewLine ==> r@ == "New line"@,
    {
        match self {
            CommitKind::TypeCharacter => "Type character",
            CommitKind::TypeFKey => "Type fkey",
            CommitKind::Backspace => "Backspace",
            CommitKind::Delete => "Delete",
            CommitKind::NewLine => "New line",
        }
    }
}

/// What the editor does after a key press was handled.
#[derive(Debug, Clone, Copy, PartialEq, Eq, Structural)]
pub enum KeyEvent {
    /// Nothing changed
    Nothing,
    /// The view has to be redrawn
    Redraw,
    /// The document was edited (and is now modified)
    Commit(CommitKind),
}

/// What a key press handled as `action` reports: edits commit, with the
/// key's name where a selection was erased by a text tool's Backspace;
/// caret moves, set changes and the like only redraw.
pub open spec fn spec_key_event(tool: Tool, key: EditorKey, action: KeyAction) -> KeyEvent {
    match action {
        KeyAction::Ignore => KeyEvent::Nothing,
        KeyAction::TypeChar(_) => KeyEvent::Commit(CommitKind::TypeCharacter),
        KeyAction::TypeFKey(_) => KeyEvent::Commit(CommitKind::TypeFKey),
        KeyAction::EraseSelection => KeyEvent::Commit(
            if key == EditorKey::Backspace && spec_is_text_tool(tool) {
                CommitKind::Backspace
            } else {
                CommitKind::Delete
            },
        ),
        KeyAction::Backspace => KeyEvent::Commit(CommitKind::Backspace),
        KeyAction::DeleteChar | KeyAction::DeleteNothing => KeyEvent::Commit(CommitKind::Delete),
        KeyAction::NewLine => KeyEvent::Commit(CommitKind::NewLine),
        _ => KeyEvent::Redraw,
    }
}

/// What a key press handled as `action` by `tool` reports.
pub fn key_event(tool: Tool, key: EditorKey, action: KeyAction) -> (r: KeyEvent)
    ensures
        r == spec_key_event(tool, key, action),
{
    match action {
        KeyAction::Ignore => KeyEvent::Nothing,
        KeyAction::TypeChar(_) => KeyEvent::Commit(CommitKind::TypeCharacter),
        KeyAction::TypeFKey(_) => KeyEvent::Commit(CommitKind::TypeFKey),
        KeyAction::EraseSelection => {
            let text_tool = match tool {
                Tool::Click | Tool::Font => true,
                _ => false,
            };
            if key == EditorKey::Backspace && text_tool {
                KeyEvent::Commit(CommitKind::Backspace)
            } else {
                KeyEvent::Commit(CommitKind::Delete)
            }
        },
        KeyAction::Backspace => KeyEvent::Commit(CommitKind::Backspace),
        KeyAction::DeleteChar | KeyAction::DeleteNothing => KeyEvent::Commit(CommitKind::Delete),
        KeyAction::NewLine => KeyEvent::Commit(CommitKind::NewLine),
        _ => KeyEvent::Redraw,
    }
}

/// A key press commits an edit exactly when its action counts as one.
pub proof fn lemma_key_commits_iff_edit(tool: Tool, key: EditorKey, m: KeyModifiers, something_selected: bool)
    ensures
        ({
            let a = spec_tool_key(tool, key, m, something_selected);
            spec_key_event(tool, key, a) is Commit <==> spec_commits(a)
        }),
{
}


/// With a text tool the arrow keys move the caret one cell in the arrow's
/// direction, whatever modifiers are held and whether something is selected;
/// opposite arrows move it in opposite directions.
pub proof fn lemma_arrows_move_caret_their_way(tool: Tool, m: KeyModifiers, something_selected: bool)
    requires
        tool == Tool::Click || tool == Tool::Font,
    ensures
        spec_tool_key(tool, EditorKey::ArrowLeft, m, something_selected) == KeyAction::MoveCaret(CaretMove::Left(1)),
        spec_tool_key(tool, EditorKey::ArrowRight, m, something_selected) == KeyAction::MoveCaret(CaretMove::Right(1)),
        spec_tool_key(tool, EditorKey::ArrowUp, m, something_selected) == KeyAction::MoveCaret(CaretMove::Up(1)),
        spec_tool_key(tool, EditorKey::ArrowDown, m, something_selected) == KeyAction::MoveCaret(CaretMove::Down(1)),
        spec_tool_key(tool, EditorKey::ArrowLeft, m, something_selected) != spec_tool_key(
            tool,
            EditorKey::ArrowRight,
            m,
            something_selected,
        ),
{
}

} // verus!
