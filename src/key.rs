//! Input events as plain values, and the scroll-key vocabulary shared by every panel.
use vstd::prelude::*;

verus! {

/// The key that was pressed.
#[derive(Clone, Copy, Debug, PartialEq, Eq, Structural)]
pub enum KeyCode {
    Char(char),
    Up,
    Down,
    Left,
    Right,
    Enter,
    Esc,
    Tab,
    BackTab,
    Backspace,
    Other,
}

/// A key press: its code and whether the control modifier was held.
#[derive(Clone, Copy, Debug, PartialEq, Eq, Structural)]
pub struct KeyEvent {
    pub code: KeyCode,
    pub ctrl: bool,
}

/// A pointer event, located by its cell on screen.
#[derive(Clone, Copy, Debug, PartialEq, Eq, Structural)]
pub struct MouseEvent {
    pub column: u16,
    pub row: u16,
}

/// What the host hands to a panel's generic event handler.
#[derive(Clone, Copy, Debug, PartialEq, Eq, Structural)]
pub enum Event {
    Key(KeyEvent),
    Mouse(MouseEvent),
    Tick,
    Render,
}

/// The four scroll operations.
#[derive(Clone, Copy, Debug, PartialEq, Eq, Structural)]
pub enum ScrollCommand {
    NextLine,
    PreviousLine,
    Top,
    Bottom,
}

/// `j`/Down scrolls down one line, `k`/Up one line up, `[` to the top, `]` to the bottom.
pub open spec fn spec_scroll_command(code: KeyCode) -> Option<ScrollCommand> {
    match code {
        KeyCode::Char('j') | KeyCode::Down => Some(ScrollCommand::NextLine),
        KeyCode::Char('k') | KeyCode::Up => Some(ScrollCommand::PreviousLine),
        KeyCode::Char('[') => Some(ScrollCommand::Top),
        KeyCode::Char(']') => Some(ScrollCommand::Bottom),
        _ => None,
    }
}

pub open spec fn is_scroll_key(key: KeyEvent) -> bool {
    spec_scroll_command(key.code).is_some()
}

impl KeyEvent {
    pub fn new(code: KeyCode) -> (r: KeyEvent)
        ensures
            r.code == code,
            !r.ctrl,
    {
        KeyEvent { code, ctrl: false }
    }

    pub fn with_ctrl(code: KeyCode) -> (r: KeyEvent)
        ensures
            r.code == code,
            r.ctrl,
    {
        KeyEvent { code, ctrl: true }
    }
}

/// The scroll operation bound to a key, if any.
pub fn scroll_command(code: KeyCode) -> (r: Option<ScrollCommand>)
    ensures
        r == spec_scroll_command(code),
{
    match code {
        KeyCode::Char('j') | KeyCode::Down => Some(ScrollCommand::NextLine),
        KeyCode::Char('k') | KeyCode::Up => Some(ScrollCommand::PreviousLine),
        KeyCode::Char('[') => Some(ScrollCommand::Top),
        KeyCode::Char(']') => Some(ScrollCommand::Bottom),
        _ => None,
    }
}

} // verus!
