//! Input modes, keys, and what a key press asks the caller to do.

use vstd::prelude::*;
use crate::record::{Password, PasswordView};

verus! {

/// The screen that the session is on.
#[derive(Clone, Copy, Debug, PartialEq, Eq, Structural)]
pub enum InputMode {
    /// Resting: nothing is being typed.
    Normal,
    /// Typing the title of a record.
    Title,
    /// Typing the username of a record.
    Username,
    /// Typing the password of a record.
    Password,
    /// Asked whether to submit what was typed.
    Submit,
    /// Typing the search text.
    Search,
    /// Browsing the list.
    List,
    /// Asked whether to delete the selected record.
    Delete,
}

/// One of the three edit buffers.
#[derive(Clone, Copy, Debug, PartialEq, Eq, Structural)]
pub enum Field {
    Title,
    Username,
    Password,
}

/// A key press, reduced to what the session distinguishes.
#[derive(Clone, Copy, Debug, PartialEq, Eq)]
pub enum Key {
    Char(char),
    Backspace,
    Tab,
    BackTab,
    Enter,
    Esc,
    Insert,
    Up,
    Down,
    /// Any key that no mode reacts to.
    Other,
}

/// What the caller has to do after a key press. The store and the clipboard
/// are the caller's: the session only says what to hand them.
#[derive(Debug, PartialEq, Eq)]
pub enum Action {
    /// Nothing beyond drawing the session again.
    Idle,
    /// End the session.
    Quit,
    /// Persist this record, then report the outcome with `PassMng::insert`.
    StoreInsert(Password),
    /// Overwrite the row with this record's id, then report the outcome with
    /// `PassMng::edit`.
    StoreUpdate(Password),
    /// Remove the row with this id, then report the outcome with
    /// `PassMng::delete`.
    StoreDelete(usize),
    /// Put this text on the clipboard.
    Copy(String),
}

/// An action as plain mathematical values.
pub enum ActionView {
    Idle,
    Quit,
    StoreInsert(PasswordView),
    StoreUpdate(PasswordView),
    StoreDelete(usize),
    Copy(Seq<char>),
}

impl View for Action {
    type V = ActionView;

    open spec fn view(&self) -> ActionView {
        match *self {
            Action::Idle => ActionView::Idle,
            Action::Quit => ActionView::Quit,
            Action::StoreInsert(record) => ActionView::StoreInsert(record@),
            Action::StoreUpdate(record) => ActionView::StoreUpdate(record@),
            Action::StoreDelete(id) => ActionView::StoreDelete(id),
            Action::Copy(text) => ActionView::Copy(text@),
        }
    }
}

/// The mode that forward navigation leads to from an edit-field mode: title,
/// username, password, then the submit prompt. Other modes stay.
pub open spec fn next_field(mode: InputMode) -> InputMode {
    match mode {
        InputMode::Title => InputMode::Username,
        InputMode::Username => InputMode::Password,
        InputMode::Password => InputMode::Submit,
        other => other,
    }
}

/// The mode that backward navigation leads to: from the submit prompt back to
/// the password, then the username, then the title, where it stops.
pub open spec fn previous_field(mode: InputMode) -> InputMode {
    match mode {
        InputMode::Username => InputMode::Title,
        InputMode::Password => InputMode::Username,
        InputMode::Submit => InputMode::Password,
        other => other,
    }
}

impl InputMode {
    /// One step forward along the chain of edit fields.
    pub fn next(self) -> (mode: InputMode)
        ensures
            mode == next_field(self),
    {
        match self {
            InputMode::Title => InputMode::Username,
            InputMode::Username => InputMode::Password,
            InputMode::Password => InputMode::Submit,
            other => other,
        }
    }

    /// One step backward along the chain of edit fields.
    pub fn previous(self) -> (mode: InputMode)
        ensures
            mode == previous_field(self),
    {
        match self {
            InputMode::Username => InputMode::Title,
            InputMode::Password => InputMode::Username,
            InputMode::Submit => InputMode::Password,
            other => other,
        }
    }
}

} // verus!
