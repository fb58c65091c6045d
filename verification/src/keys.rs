//! Keys as the host reports them, and the host's input modes.

use vstd::prelude::*;
use vstd::string::*;

verus! {

/// The host's input modes.
#[derive(Clone, Copy, Debug, PartialEq, Eq, Structural)]
pub enum InputMode {
    Normal,
    Locked,
    Resize,
    Pane,
    Tab,
    Scroll,
    EnterSearch,
    Search,
    RenameTab,
    RenamePane,
    Session,
    Move,
    Prompt,
    Tmux,
}

/// A key without its modifiers.
#[derive(Clone, Copy, Debug, PartialEq, Eq, Structural)]
pub enum BareKey {
    PageDown,
    PageUp,
    Left,
    Down,
    Up,
    Right,
    Home,
    End,
    Backspace,
    Delete,
    Insert,
    F(u8),
    Char(char),
    Tab,
    Esc,
    Enter,
    CapsLock,
    ScrollLock,
    NumLock,
    PrintScreen,
    Pause,
    Menu,
}

/// A key press: the bare key and which modifiers were held.
#[derive(Clone, Copy, Debug, PartialEq, Eq, Structural)]
pub struct KeyPress {
    pub bare_key: BareKey,
    pub ctrl: bool,
    pub alt: bool,
    pub shift: bool,
    pub super_key: bool,
}

/// Neither Ctrl nor Alt is held.
pub open spec fn unmodified(k: KeyPress) -> bool {
    !k.ctrl && !k.alt
}

/// The name of an input mode as the host spells it.
pub open spec fn mode_name_spec(m: InputMode) -> Seq<char> {
    match m {
        InputMode::Normal => "Normal"@,
        InputMode::Locked => "Locked"@,
        InputMode::Resize => "Resize"@,
        InputMode::Pane => "Pane"@,
        InputMode::Tab => "Tab"@,
        InputMode::Scroll => "Scroll"@,
        InputMode::EnterSearch => "EnterSearch"@,
        InputMode::Search => "Search"@,
        InputMode::RenameTab => "RenameTab"@,
        InputMode::RenamePane => "RenamePane"@,
        InputMode::Session => "Session"@,
        InputMode::Move => "Move"@,
        InputMode::Prompt => "Prompt"@,
        InputMode::Tmux => "Tmux"@,
    }
}

pub fn mode_name(m: InputMode) -> (r: &'static str)
    ensures
        r@ == mode_name_spec(m),
{
    match m {
        InputMode::Normal => "Normal",
        InputMode::Locked => "Locked",
        InputMode::Resize => "Resize",
        InputMode::Pane => "Pane",
        InputMode::Tab => "Tab",
        InputMode::Scroll => "Scroll",
        InputMode::EnterSearch => "EnterSearch",
        InputMode::Search => "Search",
        InputMode::RenameTab => "RenameTab",
        InputMode::RenamePane => "RenamePane",
        InputMode::Session => "Session",
        InputMode::Move => "Move",
        InputMode::Prompt => "Prompt",
        InputMode::Tmux => "Tmux",
    }
}

/// The name of a bare key as the host spells it; a function key carries its
/// number in brackets, as in `F(5)`, and a character key is the character.
pub open spec fn key_name_spec(k: BareKey) -> Seq<char> {
    match k {
        BareKey::PageDown => "PageDown"@,
        BareKey::PageUp => "PageUp"@,
        BareKey::Left => "Left"@,
        BareKey::Down => "Down"@,
        BareKey::Up => "Up"@,
        BareKey::Right => "Right"@,
        BareKey::Home => "Home"@,
        BareKey::End => "End"@,
        BareKey::Backspace => "Backspace"@,
        BareKey::Delete => "Delete"@,
        BareKey::Insert => "Insert"@,
        BareKey::F(n) => "F("@ + crate::text::decimal(n as nat) + ")"@,
        BareKey::Char(c) => seq![c],
        BareKey::Tab => "Tab"@,
        BareKey::Esc => "Esc"@,
        BareKey::Enter => "Enter"@,
        BareKey::CapsLock => "CapsLock"@,
        BareKey::ScrollLock => "ScrollLock"@,
        BareKey::NumLock => "NumLock"@,
        BareKey::PrintScreen => "PrintScreen"@,
        BareKey::Pause => "Pause"@,
        BareKey::Menu => "Menu"@,
    }
}

pub fn key_name(k: BareKey) -> (r: String)
    ensures
        r@ == key_name_spec(k),
{
    match k {
        BareKey::PageDown => "PageDown".to_string(),
        BareKey::PageUp => "PageUp".to_string(),
        BareKey::Left => "Left".to_string(),
        BareKey::Down => "Down".to_string(),
        BareKey::Up => "Up".to_string(),
        BareKey::Right => "Right".to_string(),
        BareKey::Home => "Home".to_string(),
        BareKey::End => "End".to_string(),
        BareKey::Backspace => "Backspace".to_string(),
        BareKey::Delete => "Delete".to_string(),
        BareKey::Insert => "Insert".to_string(),
        BareKey::F(n) => {
            let mut s = "F(".to_string();
            crate::text::push_decimal(&mut s, n as usize);
            s.append(")");
            s
        },
        BareKey::Char(c) => {
            let mut s = String::new();
            crate::text::push_char(&mut s, c);
            s
        },
        BareKey::Tab => "Tab".to_string(),
        BareKey::Esc => "Esc".to_string(),
        BareKey::Enter => "Enter".to_string(),
        BareKey::CapsLock => "CapsLock".to_string(),
        BareKey::ScrollLock => "ScrollLock".to_string(),
        BareKey::NumLock => "NumLock".to_string(),
        BareKey::PrintScreen => "PrintScreen".to_string(),
        BareKey::Pause => "Pause".to_string(),
        BareKey::Menu => "Menu".to_string(),
    }
}

} // verus!
