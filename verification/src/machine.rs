//! The mode state machine: what each key does in each mode.
//!
//! `step` is the transition table over the session's model. `handle_key`
//! carries it out on a session and returns what is left for the caller to
//! do: end the loop, call the store, or fill the clipboard.

use vstd::prelude::*;
use crate::mode::{next_field, previous_field, Action, ActionView, Field, InputMode, Key};
use crate::model::PassMngView;
use crate::session::PassMng;

verus! {

impl PassMngView {
    /// Typing abandoned: the buffers emptied, any edit ended, and the session
    /// back at rest. The destination is the resting mode whether a new record
    /// or an edit was abandoned.
    pub open spec fn cancelled(self) -> PassMngView {
        self.cleared().edit_ended().with_mode(InputMode::Normal)
    }

    /// The typing of a new record begun: empty buffers, no edit target, and
    /// the title field in focus.
    pub open spec fn insert_begun(self) -> PassMngView {
        self.cleared().edit_ended().with_mode(InputMode::Title)
    }

    /// What the store is asked when the typed record is submitted: to
    /// overwrite the edit target where an edit is in progress, else to insert
    /// a new record.
    pub open spec fn submission(self) -> ActionView {
        match self.edit_index {
            Some(i) => ActionView::StoreUpdate(self.draft(self.passwords[i as int].id)),
            None => ActionView::StoreInsert(self.draft(0)),
        }
    }

    /// What the store is asked when a deletion is confirmed, if a record is
    /// selected: to delete the row of the record at the selected position of
    /// the displayed list.
    pub open spec fn removal(self) -> Option<ActionView> {
        match self.selected_record() {
            Some(record) => Some(ActionView::StoreDelete(record.id)),
            None => None,
        }
    }
}

/// The clipboard action for a text, or no action where there is none.
pub open spec fn copy_action(text: Option<Seq<char>>) -> ActionView {
    match text {
        Some(t) => ActionView::Copy(t),
        None => ActionView::Idle,
    }
}

/// At rest: `q` quits, `s` searches, `l` browses, Insert begins a new record.
pub open spec fn step_normal(s: PassMngView, key: Key) -> (PassMngView, ActionView) {
    match key {
        Key::Char(c) => if c == 'q' {
            (s, ActionView::Quit)
        } else if c == 's' {
            (s.with_mode(InputMode::Search), ActionView::Idle)
        } else if c == 'l' {
            (s.with_mode(InputMode::List), ActionView::Idle)
        } else {
            (s, ActionView::Idle)
        },
        Key::Insert => (s.insert_begun(), ActionView::Idle),
        _ => (s, ActionView::Idle),
    }
}

/// In an edit field: characters are typed into the field's buffer, Backspace
/// removes the last one, Tab goes one field forward and BackTab one back, Esc
/// abandons the typing.
pub open spec fn step_field(s: PassMngView, field: Field, key: Key) -> (PassMngView, ActionView) {
    match key {
        Key::Esc => (s.cancelled(), ActionView::Idle),
        Key::Char(c) => (s.typed(field, c), ActionView::Idle),
        Key::Backspace => (s.erased(field), ActionView::Idle),
        Key::Tab => (s.with_mode(next_field(s.mode)), ActionView::Idle),
        Key::BackTab => (s.with_mode(previous_field(s.mode)), ActionView::Idle),
        _ => (s, ActionView::Idle),
    }
}

/// At the submit prompt: Enter asks the store to persist what was typed, and
/// leaves the session as it is until the store has answered; BackTab returns
/// to the password field; Esc abandons the typing.
pub open spec fn step_submit(s: PassMngView, key: Key) -> (PassMngView, ActionView) {
    match key {
        Key::Esc => (s.cancelled(), ActionView::Idle),
        Key::BackTab => (s.with_mode(InputMode::Password), ActionView::Idle),
        Key::Enter => (s, s.submission()),
        _ => (s, ActionView::Idle),
    }
}

/// While searching: characters extend the search text, Backspace shortens
/// it, and each change searches anew; Esc returns to rest and keeps the
/// search text.
pub open spec fn step_search(s: PassMngView, key: Key) -> (PassMngView, ActionView) {
    match key {
        Key::Esc => (s.with_mode(InputMode::Normal), ActionView::Idle),
        Key::Char(c) => (s.search_typed(c), ActionView::Idle),
        Key::Backspace => (s.search_erased(), ActionView::Idle),
        _ => (s, ActionView::Idle),
    }
}

/// While browsing: Up and Down move the selection, `u` and `p` copy a field
/// of the selected record, `e` begins an edit and `d` asks for a deletion
/// (both only with a selection), Esc drops the selection and returns to rest.
pub open spec fn step_list(s: PassMngView, key: Key) -> (PassMngView, ActionView) {
    match key {
        Key::Esc => (s.deselected().with_mode(InputMode::Normal), ActionView::Idle),
        Key::Up => (s.moved_up(), ActionView::Idle),
        Key::Down => (s.moved_down(), ActionView::Idle),
        Key::Char(c) => if c == 'u' {
            (s, copy_action(s.selected_username()))
        } else if c == 'p' {
            (s, copy_action(s.selected_password()))
        } else if c == 'e' {
            (s.edit_started(), ActionView::Idle)
        } else if c == 'd' {
            (s.delete_requested(), ActionView::Idle)
        } else {
            (s, ActionView::Idle)
        },
        _ => (s, ActionView::Idle),
    }
}

/// At the delete prompt: `y` asks the store to delete the selected record,
/// and leaves the session as it is until the store has answered; `n` returns
/// to the list. With nothing selected, `y` returns to the list as well.
pub open spec fn step_delete(s: PassMngView, key: Key) -> (PassMngView, ActionView) {
    match key {
        Key::Char(c) => if c == 'n' {
            (s.with_mode(InputMode::List), ActionView::Idle)
        } else if c == 'y' {
            match s.removal() {
                Some(request) => (s, request),
                None => (s.with_mode(InputMode::List), ActionView::Idle),
            }
        } else {
            (s, ActionView::Idle)
        },
        _ => (s, ActionView::Idle),
    }
}

/// The session after a key press, and what the caller is asked to do.
pub open spec fn step(s: PassMngView, key: Key) -> (PassMngView, ActionView) {
    match s.mode {
        InputMode::Normal => step_normal(s, key),
        InputMode::Title => step_field(s, Field::Title, key),
        InputMode::Username => step_field(s, Field::Username, key),
        InputMode::Password => step_field(s, Field::Password, key),
        InputMode::Submit => step_submit(s, key),
        InputMode::Search => step_search(s, key),
        InputMode::List => step_list(s, key),
        InputMode::Delete => step_delete(s, key),
    }
}

impl PassMng {
    /// Abandons what is being typed: empties the buffers, ends any edit and
    /// returns to rest.
    pub fn cancel(&mut self)
        ensures
            final(self)@ == old(self)@.cancelled(),
            old(self)@.inv() ==> final(self)@.inv(),
    {
        self.clear_fields();
        self.end_edit_mode();
        self.change_mode(InputMode::Normal);
    }

    fn on_normal(&mut self, key: Key) -> (action: Action)
        requires
            old(self)@.inv(),
        ensures
            (final(self)@, action@) == step_normal(old(self)@, key),
            final(self)@.inv(),
    {
        match key {
            Key::Char(c) => {
                if c == 'q' {
                    return Action::Quit;
                } else if c == 's' {
                    self.change_mode(InputMode::Search);
                } else if c == 'l' {
                    self.change_mode(InputMode::List);
                }
            },
            Key::Insert => {
                self.clear_fields();
                self.end_edit_mode();
                self.change_mode(InputMode::Title);
            },
            _ => {},
        }
        Action::Idle
    }

    fn on_field(&mut self, field: Field, key: Key) -> (action: Action)
        requires
            old(self)@.inv(),
        ensures
            (final(self)@, action@) == step_field(old(self)@, field, key),
            final(self)@.inv(),
    {
        match key {
            Key::Esc => self.cancel(),
            Key::Char(c) => self.push_char(field, c),
            Key::Backspace => self.pop_char(field),
            Key::Tab => {
                let mode = self.mode().next();
                self.change_mode(mode);
            },
            Key::BackTab => {
                let mode = self.mode().previous();
                self.change_mode(mode);
            },
            _ => {},
        }
        Action::Idle
    }

    fn on_submit(&mut self, key: Key) -> (action: Action)
        requires
            old(self)@.inv(),
        ensures
            (final(self)@, action@) == step_submit(old(self)@, key),
            final(self)@.inv(),
    {
        match key {
            Key::Esc => self.cancel(),
            Key::BackTab => self.change_mode(InputMode::Password),
            Key::Enter => {
                return match self.revision() {
                    Some(record) => Action::StoreUpdate(record),
                    None => Action::StoreInsert(self.draft()),
                };
            },
            _ => {},
        }
        Action::Idle
    }

    fn on_search(&mut self, key: Key) -> (action: Action)
        requires
            old(self)@.inv(),
        ensures
            (final(self)@, action@) == step_search(old(self)@, key),
            final(self)@.inv(),
    {
        match key {
            Key::Esc => self.change_mode(InputMode::Normal),
            Key::Char(c) => self.push_search(c),
            Key::Backspace => self.pop_search(),
            _ => {},
        }
        Action::Idle
    }

    fn on_list(&mut self, key: Key) -> (action: Action)
        requires
            old(self)@.inv(),
        ensures
            (final(self)@, action@) == step_list(old(self)@, key),
            final(self)@.inv(),
    {
        match key {
            Key::Esc => {
                self.deselect();
                self.change_mode(InputMode::Normal);
            },
            Key::Up => self.move_up(),
            Key::Down => self.move_down(),
            Key::Char(c) => {
                if c == 'u' {
                    return match self.copy_username() {
                        Some(text) => Action::Copy(text),
                        None => Action::Idle,
                    };
                } else if c == 'p' {
                    return match self.copy_password() {
                        Some(text) => Action::Copy(text),
                        None => Action::Idle,
                    };
                } else if c == 'e' {
                    self.start_edit_mode();
                } else if c == 'd' {
                    self.check_delete();
                }
            },
            _ => {},
        }
        Action::Idle
    }

    fn on_delete(&mut self, key: Key) -> (action: Action)
        requires
            old(self)@.inv(),
            old(self)@.mode == InputMode::Delete,
        ensures
            (final(self)@, action@) == step_delete(old(self)@, key),
            final(self)@.inv(),
    {
        match key {
            Key::Char(c) => {
                if c == 'n' {
                    self.change_mode(InputMode::List);
                } else if c == 'y' {
                    match self.doomed() {
                        Some(id) => {
                            return Action::StoreDelete(id);
                        },
                        None => self.change_mode(InputMode::List),
                    }
                }
            },
            _ => {},
        }
        Action::Idle
    }

    /// Carries out one key press in the current mode. The session changes as
    /// `step` says. Where the returned action names the store, the session
    /// has not changed yet: the caller makes the call and reports the outcome
    /// to `insert`, `edit` or `delete`.
    pub fn handle_key(&mut self, key: Key) -> (action: Action)
        requires
            old(self)@.inv(),
        ensures
            (final(self)@, action@) == step(old(self)@, key),
            final(self)@.inv(),
    {
        match self.mode() {
            InputMode::Normal => self.on_normal(key),
            InputMode::Title => self.on_field(Field::Title, key),
            InputMode::Username => self.on_field(Field::Username, key),
            InputMode::Password => self.on_field(Field::Password, key),
            InputMode::Submit => self.on_submit(key),
            InputMode::Search => self.on_search(key),
            InputMode::List => self.on_list(key),
            InputMode::Delete => self.on_delete(key),
        }
    }
}

} // verus!
