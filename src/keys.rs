//! What each key does, given the popup open and whether text is being typed.
use vstd::prelude::*;

use crate::protocol::opt_view;
use crate::text::{chars_of, string_of};
use crate::ui::Popup;

verus! {

/// A key, as far as the bindings tell keys apart.
#[derive(Debug, Clone, Copy, PartialEq, Eq, Structural)]
pub enum Key {
    Char(char),
    Enter,
    Esc,
    Backspace,
    Delete,
    Left,
    Right,
    Home,
    End,
    Other,
}

/// A key pressed, with whether Control was held.
#[derive(Debug, Clone, Copy, PartialEq, Eq, Structural)]
pub struct KeyPress {
    pub key: Key,
    pub ctrl: bool,
}

/// What a key asks the application to do.
#[derive(Debug, Clone, PartialEq)]
pub enum Action {
    Nothing,
    Quit,
    /// Show this popup instead of the current one.
    SetPopup(Popup),
    /// Close the import popup and start typing a FEN.
    ImportFen,
    /// Close the import popup and start typing a game.
    ImportPgn,
    /// Close the import popup and start a new game.
    NewGame,
    /// Apply the depth typed into the depth popup.
    ConfirmDepth(String),
    /// Apply the number of lines typed into the MultiPV popup.
    ConfirmMultiPv(String),
    ExitInput,
    SubmitInput,
    Backspace,
    Delete,
    CursorLeft,
    CursorRight,
    CursorStart,
    CursorEnd,
    Insert(char),
    FlipBoard,
    TogglePause,
    CopyFen,
    GoBack,
    GoForward,
    GoToStart,
    GoToEnd,
    CommandMode,
    /// Play the first move of the analysis line of this index.
    PlayLine(usize),
    /// Enter the command line with this character typed.
    StartTyping(char),
}

pub enum PopupModel {
    Hidden,
    Help,
    Import,
    Depth(Seq<char>),
    MultiPV(Seq<char>),
}

impl View for Popup {
    type V = PopupModel;

    open spec fn view(&self) -> PopupModel {
        match self {
            Popup::Hidden => PopupModel::Hidden,
            Popup::Help => PopupModel::Help,
            Popup::Import => PopupModel::Import,
            Popup::Depth(s) => PopupModel::Depth(s@),
            Popup::MultiPV(s) => PopupModel::MultiPV(s@),
        }
    }
}

pub enum ActionModel {
    Nothing,
    Quit,
    SetPopup(PopupModel),
    ImportFen,
    ImportPgn,
    NewGame,
    ConfirmDepth(Seq<char>),
    ConfirmMultiPv(Seq<char>),
    ExitInput,
    SubmitInput,
    Backspace,
    Delete,
    CursorLeft,
    CursorRight,
    CursorStart,
    CursorEnd,
    Insert(char),
    FlipBoard,
    TogglePause,
    CopyFen,
    GoBack,
    GoForward,
    GoToStart,
    GoToEnd,
    CommandMode,
    PlayLine(nat),
    StartTyping(char),
}

impl View for Action {
    type V = ActionModel;

    open spec fn view(&self) -> ActionModel {
        match self {
            Action::Nothing => ActionModel::Nothing,
            Action::Quit => ActionModel::Quit,
            Action::SetPopup(p) => ActionModel::SetPopup(p@),
            Action::ImportFen => ActionModel::ImportFen,
            Action::ImportPgn => ActionModel::ImportPgn,
            Action::NewGame => ActionModel::NewGame,
            Action::ConfirmDepth(s) => ActionModel::ConfirmDepth(s@),
            Action::ConfirmMultiPv(s) => ActionModel::ConfirmMultiPv(s@),
            Action::ExitInput => ActionModel::ExitInput,
            Action::SubmitInput => ActionModel::SubmitInput,
            Action::Backspace => ActionModel::Backspace,
            Action::Delete => ActionModel::Delete,
            Action::CursorLeft => ActionModel::CursorLeft,
            Action::CursorRight => ActionModel::CursorRight,
            Action::CursorStart => ActionModel::CursorStart,
            Action::CursorEnd => ActionModel::CursorEnd,
            Action::Insert(c) => ActionModel::Insert(*c),
            Action::FlipBoard => ActionModel::FlipBoard,
            Action::TogglePause => ActionModel::TogglePause,
            Action::CopyFen => ActionModel::CopyFen,
            Action::GoBack => ActionModel::GoBack,
            Action::GoForward => ActionModel::GoForward,
            Action::GoToStart => ActionModel::GoToStart,
            Action::GoToEnd => ActionModel::GoToEnd,
            Action::CommandMode => ActionModel::CommandMode,
            Action::PlayLine(i) => ActionModel::PlayLine(*i as nat),
            Action::StartTyping(c) => ActionModel::StartTyping(*c),
        }
    }
}

/// Whether `char::is_alphabetic` holds of a character.
pub uninterp spec fn alphabetic(c: char) -> bool;

/// Relies on `char::is_alphabetic`: the Unicode `Alphabetic` property of `c`.
#[verifier::external_body]
fn is_alphabetic(c: char) -> (r: bool)
    ensures
        r == alphabetic(c),
{
    c.is_alphabetic()
}

pub open spec fn is_ascii_digit(c: char) -> bool {
    48 <= (c as u32) && (c as u32) <= 57
}

/// The digits of a settings popup after a key: a digit is appended,
/// backspace drops the last character; `None` for any other key.
pub open spec fn edit_digits(s: Seq<char>, k: Key) -> Option<Seq<char>> {
    match k {
        Key::Char(c) => if is_ascii_digit(c) {
            Some(s.push(c))
        } else {
            None
        },
        Key::Backspace => Some(
            if s.len() > 0 {
                s.drop_last()
            } else {
                s
            },
        ),
        _ => None,
    }
}

/// What key `k` does, with popup `p` open (or `Hidden`) and text being
/// typed where `typing` holds; `alpha` is whether the key's character is
/// alphabetic.
pub open spec fn action_of(p: PopupModel, typing: bool, k: KeyPress, alpha: bool) -> ActionModel {
    if k.ctrl && k.key == Key::Char('c') {
        ActionModel::Quit
    } else {
        match p {
            PopupModel::Help => match k.key {
                Key::Esc | Key::Char('?') | Key::Char('q') => ActionModel::SetPopup(
                    PopupModel::Hidden,
                ),
                _ => ActionModel::Nothing,
            },
            PopupModel::Import => match k.key {
                Key::Esc => ActionModel::SetPopup(PopupModel::Hidden),
                Key::Char('f') => ActionModel::ImportFen,
                Key::Char('p') => ActionModel::ImportPgn,
                Key::Char('n') => ActionModel::NewGame,
                _ => ActionModel::Nothing,
            },
            PopupModel::Depth(s) => match k.key {
                Key::Esc => ActionModel::SetPopup(PopupModel::Hidden),
                Key::Enter => ActionModel::ConfirmDepth(s),
                _ => match edit_digits(s, k.key) {
                    Some(t) => ActionModel::SetPopup(PopupModel::Depth(t)),
                    None => ActionModel::Nothing,
                },
            },
            PopupModel::MultiPV(s) => match k.key {
                Key::Esc => ActionModel::SetPopup(PopupModel::Hidden),
                Key::Enter => ActionModel::ConfirmMultiPv(s),
                _ => match edit_digits(s, k.key) {
                    Some(t) => ActionModel::SetPopup(PopupModel::MultiPV(t)),
                    None => ActionModel::Nothing,
                },
            },
            PopupModel::Hidden => if typing {
                match k.key {
                    Key::Esc => ActionModel::ExitInput,
                    Key::Enter => ActionModel::SubmitInput,
                    Key::Backspace => ActionModel::Backspace,
                    Key::Delete => ActionModel::Delete,
                    Key::Left => ActionModel::CursorLeft,
                    Key::Right => ActionModel::CursorRight,
                    Key::Home => ActionModel::CursorStart,
                    Key::End => ActionModel::CursorEnd,
                    Key::Char(c) => ActionModel::Insert(c),
                    Key::Other => ActionModel::Nothing,
                }
            } else {
                match k.key {
                    Key::Char('q') => ActionModel::Quit,
                    Key::Char('?') => ActionModel::SetPopup(PopupModel::Help),
                    Key::Char('i') => ActionModel::SetPopup(PopupModel::Import),
                    Key::Char('f') => ActionModel::FlipBoard,
                    Key::Char('p') => ActionModel::TogglePause,
                    Key::Char('d') => ActionModel::SetPopup(PopupModel::Depth(seq![])),
                    Key::Char('m') => ActionModel::SetPopup(PopupModel::MultiPV(seq![])),
                    Key::Char('y') => ActionModel::CopyFen,
                    Key::Left | Key::Char('h') => ActionModel::GoBack,
                    Key::Right | Key::Char('l') => ActionModel::GoForward,
                    Key::Home => ActionModel::GoToStart,
                    Key::End => ActionModel::GoToEnd,
                    Key::Enter | Key::Char(':') => ActionModel::CommandMode,
                    Key::Char(c) => if 49 <= (c as u32) && (c as u32) <= 57 {
                        ActionModel::PlayLine(((c as u32) - 49) as nat)
                    } else if alpha {
                        ActionModel::StartTyping(c)
                    } else {
                        ActionModel::Nothing
                    },
                    _ => ActionModel::Nothing,
                }
            },
        }
    }
}

fn edit(s: &String, k: Key) -> (r: Option<String>)
    ensures
        opt_view(r) == edit_digits(s@, k),
{
    match k {
        Key::Char(c) => {
            if 48 <= (c as u32) && (c as u32) <= 57 {
                let mut v = chars_of(s.as_str());
                v.push(c);
                Some(string_of(&v))
            } else {
                None
            }
        },
        Key::Backspace => {
            let mut v = chars_of(s.as_str());
            if v.len() > 0 {
                v.pop();
                assert(v@ =~= s@.drop_last());
            }
            Some(string_of(&v))
        },
        _ => None,
    }
}

/// What key `k` does, with popup `popup` open and text being typed where
/// `typing` holds.
pub fn key_action(popup: &Popup, typing: bool, k: KeyPress) -> (r: Action)
    ensures
        k.key is Char ==> r@ == action_of(popup@, typing, k, alphabetic(k.key->Char_0)),
        !(k.key is Char) ==> r@ == action_of(popup@, typing, k, false),
{
    let alpha = match k.key {
        Key::Char(c) => is_alphabetic(c),
        _ => false,
    };
    decide_key(popup, typing, k, alpha)
}

/// What key `k` does, with popup `popup` open, text being typed where
/// `typing` holds, and `alpha` telling whether the key's character is
/// alphabetic.
pub fn decide_key(popup: &Popup, typing: bool, k: KeyPress, alpha: bool) -> (r: Action)
    ensures
        r@ == action_of(popup@, typing, k, alpha),
{
    if k.ctrl && k.key == Key::Char('c') {
        return Action::Quit;
    }
    match popup {
        Popup::Help => match k.key {
            Key::Esc | Key::Char('?') | Key::Char('q') => Action::SetPopup(Popup::Hidden),
            _ => Action::Nothing,
        },
        Popup::Import => match k.key {
            Key::Esc => Action::SetPopup(Popup::Hidden),
            Key::Char('f') => Action::ImportFen,
            Key::Char('p') => Action::ImportPgn,
            Key::Char('n') => Action::NewGame,
            _ => Action::Nothing,
        },
        Popup::Depth(s) => match k.key {
            Key::Esc => Action::SetPopup(Popup::Hidden),
            Key::Enter => Action::ConfirmDepth(s.clone()),
            _ => match edit(s, k.key) {
                Some(t) => Action::SetPopup(Popup::Depth(t)),
                None => Action::Nothing,
            },
        },
        Popup::MultiPV(s) => match k.key {
            Key::Esc => Action::SetPopup(Popup::Hidden),
            Key::Enter => Action::ConfirmMultiPv(s.clone()),
            _ => match edit(s, k.key) {
                Some(t) => Action::SetPopup(Popup::MultiPV(t)),
                None => Action::Nothing,
            },
        },
        Popup::Hidden => {
            if typing {
                match k.key {
                    Key::Esc => Action::ExitInput,
                    Key::Enter => Action::SubmitInput,
                    Key::Backspace => Action::Backspace,
                    Key::Delete => Action::Delete,
                    Key::Left => Action::CursorLeft,
                    Key::Right => Action::CursorRight,
                    Key::Home => Action::CursorStart,
                    Key::End => Action::CursorEnd,
                    Key::Char(c) => Action::Insert(c),
                    Key::Other => Action::Nothing,
                }
            } else {
                match k.key {
                    Key::Char('q') => Action::Quit,
                    Key::Char('?') => Action::SetPopup(Popup::Help),
                    Key::Char('i') => Action::SetPopup(Popup::Import),
                    Key::Char('f') => Action::FlipBoard,
                    Key::Char('p') => Action::TogglePause,
                    Key::Char('d') => Action::SetPopup(Popup::Depth(String::new())),
                    Key::Char('m') => Action::SetPopup(Popup::MultiPV(String::new())),
                    Key::Char('y') => Action::CopyFen,
                    Key::Left | Key::Char('h') => Action::GoBack,
                    Key::Right | Key::Char('l') => Action::GoForward,
                    Key::Home => Action::GoToStart,
                    Key::End => Action::GoToEnd,
                    Key::Enter | Key::Char(':') => Action::CommandMode,
                    Key::Char(c) => {
                        if 49 <= (c as u32) && (c as u32) <= 57 {
                            Action::PlayLine(((c as u32) - 49) as usize)
                        } else if alpha {
                            Action::StartTyping(c)
                        } else {
                            Action::Nothing
                        }
                    },
                    _ => Action::Nothing,
                }
            }
        },
    }
}

} // verus!
