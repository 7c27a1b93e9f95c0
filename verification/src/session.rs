//! The session: the loaded records, the search, the selection and the edit
//! buffers, with the operations that change them.
//!
//! The session never talks to the record store. Where an operation depends
//! on the store, the caller makes the call and hands the outcome in; on a
//! failure the session stays exactly as it was.

use vstd::prelude::*;
use crate::filter::{
    filter_by_title, lemma_covers_push, lemma_empty_covers, matching, remove_id, splits_by_prefix,
    views,
};
use crate::mode::{Field, InputMode};
use crate::model::{clamp_selection, PassMngView};
use crate::record::Password;
use crate::store::StoreError;

verus! {

/// The state of one interactive session.
pub struct PassMng {
    mode: InputMode,
    selected: Option<usize>,
    passwords: Vec<Password>,
    search_txt: String,
    search_list: Vec<Password>,
    new_title: String,
    new_username: String,
    new_password: String,
    edit_index: Option<usize>,
}

impl View for PassMng {
    type V = PassMngView;

    closed spec fn view(&self) -> PassMngView {
        PassMngView {
            mode: self.mode,
            selected: self.selected,
            passwords: views(self.passwords@),
            search_txt: self.search_txt@,
            search_list: views(self.search_list@),
            new_title: self.new_title@,
            new_username: self.new_username@,
            new_password: self.new_password@,
            edit_index: self.edit_index,
        }
    }
}

/// A selection made to fit a list of `len` entries.
fn clamp(selected: Option<usize>, len: usize) -> (fitted: Option<usize>)
    ensures
        fitted == clamp_selection(selected, len as nat),
{
    match selected {
        Some(i) => if i < len {
            Some(i)
        } else if len > 0 {
            Some(len - 1)
        } else {
            None
        },
        None => None,
    }
}

impl PassMng {
    /// A session at rest over the records that the store returned: nothing
    /// selected, nothing typed, no search text, and an empty search list, so
    /// that every record is displayed.
    pub fn new(passwords: Vec<Password>) -> (session: PassMng)
        ensures
            session@ == PassMngView::initial(views(passwords@)),
            session@.search_list.len() == 0,
            session@.displayed() == views(passwords@),
            session@.inv(),
    {
        let search_list: Vec<Password> = Vec::new();
        proof {
            lemma_empty_covers(views(passwords@), Seq::empty());
            assert(views(search_list@) =~= Seq::empty());
        }
        PassMng {
            mode: InputMode::Normal,
            selected: None,
            passwords,
            search_txt: String::new(),
            search_list,
            new_title: String::new(),
            new_username: String::new(),
            new_password: String::new(),
            edit_index: None,
        }
    }

    /// The current input mode.
    pub fn mode(&self) -> (mode: InputMode)
        ensures
            mode == self@.mode,
    {
        self.mode
    }

    /// The selected position in the displayed list, if any.
    pub fn selected(&self) -> (selected: Option<usize>)
        ensures
            selected == self@.selected,
    {
        self.selected
    }

    /// Every record of the session.
    pub fn passwords(&self) -> (records: &Vec<Password>)
        ensures
            views(records@) == self@.passwords,
    {
        &self.passwords
    }

    /// The search text.
    pub fn search_txt(&self) -> (text: &str)
        ensures
            text@ == self@.search_txt,
    {
        self.search_txt.as_str()
    }

    /// The match list of the last search: empty before the first search.
    pub fn search_list(&self) -> (records: &Vec<Password>)
        ensures
            views(records@) == self@.search_list,
    {
        &self.search_list
    }

    /// The list on screen: the search list, or every record where the search
    /// list is empty.
    pub fn displayed(&self) -> (records: &Vec<Password>)
        ensures
            views(records@) == self@.displayed(),
    {
        if self.search_list.len() > 0 {
            &self.search_list
        } else {
            &self.passwords
        }
    }

    /// What has been typed into one of the edit buffers.
    pub fn buffer(&self, field: Field) -> (text: &str)
        ensures
            text@ == self@.buffer(field),
    {
        match field {
            Field::Title => self.new_title.as_str(),
            Field::Username => self.new_username.as_str(),
            Field::Password => self.new_password.as_str(),
        }
    }

    /// Is an existing record being edited, rather than a new one typed?
    pub fn edit_mode(&self) -> (editing: bool)
        ensures
            editing == self@.editing(),
    {
        self.edit_index.is_some()
    }

    /// The position of the record being edited, if any.
    pub fn edit_index(&self) -> (index: Option<usize>)
        ensures
            index == self@.edit_index,
    {
        self.edit_index
    }

    /// Switches to `mode` and changes nothing else.
    pub fn change_mode(&mut self, mode: InputMode)
        ensures
            final(self)@ == old(self)@.with_mode(mode),
            old(self)@.inv() ==> final(self)@.inv(),
    {
        self.mode = mode;
    }

    /// Empties the three edit buffers.
    pub fn clear_fields(&mut self)
        ensures
            final(self)@ == old(self)@.cleared(),
            old(self)@.inv() ==> final(self)@.inv(),
    {
        self.new_title = String::new();
        self.new_username = String::new();
        self.new_password = String::new();
    }

    /// Computes the search list from the records and the search text: the
    /// records whose title begins with the text, in the order of the full
    /// list. The selection is then made to fit the displayed list.
    pub fn search(&mut self)
        ensures
            final(self)@ == old(self)@.refreshed(),
            final(self)@.search_list == matching(old(self)@.passwords, old(self)@.search_txt),
            splits_by_prefix(
                final(self)@.passwords,
                final(self)@.search_txt,
                final(self)@.search_list,
            ),
            old(self)@.edit_index_valid() ==> final(self)@.inv(),
    {
        proof {
            old(self)@.lemma_refreshed();
        }
        self.search_list = filter_by_title(&self.passwords, self.search_txt.as_str());
        let shown = if self.search_list.len() > 0 {
            self.search_list.len()
        } else {
            self.passwords.len()
        };
        self.selected = clamp(self.selected, shown);
    }

    /// Replaces the search text and computes the search list from it: the
    /// records whose title begins with `text`, in the order of the full list.
    pub fn update_search(&mut self, text: String)
        requires
            old(self)@.inv(),
        ensures
            final(self)@ == old(self)@.searched(text@),
            splits_by_prefix(final(self)@.passwords, text@, final(self)@.search_list),
            final(self)@.inv(),
    {
        self.search_txt = text;
        self.search();
    }

    /// Types one character at the end of an edit buffer.
    pub fn push_char(&mut self, field: Field, ch: char)
        ensures
            final(self)@ == old(self)@.typed(field, ch),
            old(self)@.inv() ==> final(self)@.inv(),
    {
        match field {
            Field::Title => self.new_title.push(ch),
            Field::Username => self.new_username.push(ch),
            Field::Password => self.new_password.push(ch),
        }
    }

    /// Removes the last character of an edit buffer; an empty buffer stays
    /// empty.
    pub fn pop_char(&mut self, field: Field)
        ensures
            final(self)@ == old(self)@.erased(field),
            old(self)@.inv() ==> final(self)@.inv(),
    {
        match field {
            Field::Title => {
                self.new_title.pop();
            },
            Field::Username => {
                self.new_username.pop();
            },
            Field::Password => {
                self.new_password.pop();
            },
        }
    }

    /// Types one character at the end of the search text and searches.
    pub fn push_search(&mut self, ch: char)
        requires
            old(self)@.inv(),
        ensures
            final(self)@ == old(self)@.search_typed(ch),
            final(self)@.inv(),
    {
        self.search_txt.push(ch);
        self.search();
    }

    /// Removes the last character of the search text, if there is one, and
    /// searches, also where the text was empty already.
    pub fn pop_search(&mut self)
        requires
            old(self)@.inv(),
        ensures
            final(self)@ == old(self)@.search_erased(),
            final(self)@.inv(),
    {
        self.search_txt.pop();
        self.search();
    }

    /// The record that the edit buffers spell out, not yet persisted: what
    /// the store is asked to insert.
    pub fn draft(&self) -> (record: Password)
        ensures
            record@ == self@.draft(0),
    {
        Password::new(self.new_title.clone(), self.new_username.clone(), self.new_password.clone())
    }

    /// The record that the edit buffers spell out under the id of the edit
    /// target: what the store is asked to overwrite. `None` where no edit is
    /// in progress.
    pub fn revision(&self) -> (record: Option<Password>)
        requires
            self@.inv(),
        ensures
            match self@.edit_index {
                Some(i) => record is Some && record->0@ == self@.draft(
                    self@.passwords[i as int].id,
                ),
                None => record is None,
            },
    {
        match self.edit_index {
            Some(i) => Some(
                Password::new_with_id(
                    self.passwords[i].id,
                    self.new_title.clone(),
                    self.new_username.clone(),
                    self.new_password.clone(),
                ),
            ),
            None => None,
        }
    }

    /// Completes an insertion. `stored` is what the store answered when it
    /// was asked to persist `draft()`: the id it assigned, or its failure.
    /// On success the record is appended under that id, the buffers are
    /// emptied and the session returns to rest; the search text, the search
    /// list and the selection stay as they were. On failure nothing changes
    /// and the error is handed back.
    pub fn insert(&mut self, stored: Result<usize, StoreError>) -> (outcome: Result<
        (),
        StoreError,
    >)
        requires
            old(self)@.inv(),
        ensures
            match stored {
                Ok(id) => outcome is Ok && final(self)@ == old(self)@.inserted(id),
                Err(error) => outcome == Err::<(), StoreError>(error) && final(self)@ == old(
                    self,
                )@,
            },
            final(self)@.selected == old(self)@.selected,
            final(self)@.search_txt == old(self)@.search_txt,
            final(self)@.search_list == old(self)@.search_list,
            final(self)@.inv(),
    {
        match stored {
            Ok(id) => {
                let mut record = self.draft();
                record.id = id;
                self.passwords.push(record);
                self.clear_fields();
                self.change_mode(InputMode::Normal);
                proof {
                    assert(views(self.passwords@) =~= old(self)@.passwords.push(
                        old(self)@.draft(id),
                    ));
                    lemma_covers_push(
                        old(self)@.passwords,
                        old(self)@.draft(id),
                        old(self)@.search_txt,
                        old(self)@.search_list,
                    );
                }
                Ok(())
            },
            Err(error) => Err(error),
        }
    }

    /// Begins an edit at the selected position: copies the fields of the
    /// record that stands at that position of the full list into the edit
    /// buffers, remembers the position and moves to the title field. Without
    /// a selection nothing changes.
    pub fn start_edit_mode(&mut self)
        requires
            old(self)@.inv(),
        ensures
            final(self)@ == old(self)@.edit_started(),
            old(self)@.selected is None ==> final(self)@ == old(self)@,
            final(self)@.inv(),
    {
        proof {
            self@.lemma_displayed_in_passwords();
        }
        if let Some(index) = self.selected {
            self.new_title = self.passwords[index].title.clone();
            self.new_username = self.passwords[index].username.clone();
            self.new_password = self.passwords[index].password.clone();
            self.edit_index = Some(index);
            self.change_mode(InputMode::Title);
        }
    }

    /// Completes an edit. `stored` is what the store answered when it was
    /// asked to overwrite the row of `revision()`. On success the edit target
    /// is replaced in place under its old id, the buffers are emptied, the
    /// edit ends and the session returns to the list; the search list, which
    /// may have held the record as it was, is computed anew. On failure, or
    /// where no edit is in progress, nothing changes.
    pub fn edit(&mut self, stored: Result<(), StoreError>) -> (outcome: Result<(), StoreError>)
        requires
            old(self)@.inv(),
        ensures
            outcome == stored,
            stored is Ok ==> final(self)@ == old(self)@.edited(),
            stored is Err ==> final(self)@ == old(self)@,
            final(self)@.inv(),
    {
        if stored.is_ok() {
            if let Some(record) = self.revision() {
                let index = self.edit_index.unwrap();
                self.passwords.set(index, record);
                self.clear_fields();
                self.end_edit_mode();
                self.change_mode(InputMode::List);
                assert(views(self.passwords@) =~= old(self)@.passwords.update(
                    index as int,
                    old(self)@.draft(old(self)@.passwords[index as int].id),
                ));
                self.search();
            }
        }
        stored
    }

    /// Ends an edit in progress: the buffers stand for a new record again.
    pub fn end_edit_mode(&mut self)
        ensures
            final(self)@ == old(self)@.edit_ended(),
            old(self)@.inv() ==> final(self)@.inv(),
    {
        self.edit_index = None;
    }

    /// Asks for a deletion: opens the delete prompt if a record is selected,
    /// and changes nothing otherwise.
    pub fn check_delete(&mut self)
        ensures
            final(self)@ == old(self)@.delete_requested(),
            old(self)@.selected is None ==> final(self)@ == old(self)@,
            old(self)@.inv() ==> final(self)@.inv(),
    {
        if self.selected.is_some() {
            self.change_mode(InputMode::Delete);
        }
    }

    /// The id of the record that a pending delete request would remove, the
    /// record at the selected position of the displayed list: what the store
    /// is asked to delete. `None` where no request is pending.
    pub fn doomed(&self) -> (id: Option<usize>)
        requires
            self@.inv(),
        ensures
            self@.delete_pending() ==> id == Some(
                self@.displayed()[self@.selected->0 as int].id,
            ),
            !self@.delete_pending() ==> id is None,
    {
        match (self.mode, self.selected) {
            (InputMode::Delete, Some(index)) => Some(self.displayed()[index].id),
            _ => None,
        }
    }

    /// Completes a deletion. `stored` is what the store answered when it was
    /// asked to delete the row of `doomed()`. On success the record at the
    /// selected position of the displayed list leaves the session: no record
    /// of its id is left, and every other record stays in its order. The
    /// selection goes to the first position (or is dropped, where no record
    /// remains or the removed record stood last on screen), the search list
    /// is computed anew, and the session returns to the list. On failure, or
    /// where no delete request is pending, nothing changes.
    pub fn delete(&mut self, stored: Result<(), StoreError>) -> (outcome: Result<(), StoreError>)
        requires
            old(self)@.inv(),
        ensures
            outcome == stored,
            stored is Ok ==> final(self)@ == old(self)@.deleted(),
            stored is Err ==> final(self)@ == old(self)@,
            final(self)@.inv(),
    {
        if stored.is_ok() {
            if let (Some(id), Some(index)) = (self.doomed(), self.selected) {
                let shown = self.displayed().len();
                self.passwords = remove_id(&self.passwords, id);
                self.selected = if self.passwords.len() > 0 && index + 1 < shown {
                    Some(0)
                } else {
                    None
                };
                self.end_edit_mode();
                self.change_mode(InputMode::List);
                self.search();
            }
        }
        stored
    }

    /// Moves the selection one position up, stopping at the first. Without a
    /// selection, selects the first position of the displayed list.
    pub fn move_up(&mut self)
        requires
            old(self)@.inv(),
        ensures
            final(self)@ == old(self)@.moved_up(),
            old(self)@.selected == Some(0usize) ==> final(self)@ == old(self)@,
            final(self)@.inv(),
    {
        self.selected = match self.selected {
            Some(v) => if v == 0 {
                Some(v)
            } else {
                Some(v - 1)
            },
            None => if self.displayed().len() > 0 {
                Some(0)
            } else {
                None
            },
        };
    }

    /// Moves the selection one position down, stopping at the last. Without
    /// a selection, selects the first position of the displayed list.
    pub fn move_down(&mut self)
        requires
            old(self)@.inv(),
        ensures
            final(self)@ == old(self)@.moved_down(),
            old(self)@.at_last() ==> final(self)@ == old(self)@,
            final(self)@.inv(),
    {
        let len = self.displayed().len();
        self.selected = match self.selected {
            Some(v) => if v + 1 >= len {
                Some(v)
            } else {
                Some(v + 1)
            },
            None => if len > 0 {
                Some(0)
            } else {
                None
            },
        };
    }

    /// Drops the selection.
    pub fn deselect(&mut self)
        ensures
            final(self)@ == old(self)@.deselected(),
            old(self)@.inv() ==> final(self)@.inv(),
    {
        self.selected = None;
    }

    /// The username of the record at the selected position of the displayed
    /// list, for the clipboard; `None` without a selection.
    pub fn copy_username(&self) -> (text: Option<String>)
        requires
            self@.inv(),
        ensures
            text is Some == self@.selected is Some,
            self@.selected_username() == match text {
                Some(t) => Some(t@),
                None => None,
            },
    {
        match self.selected {
            Some(index) => Some(self.displayed()[index].username.clone()),
            None => None,
        }
    }

    /// The password of the record at the selected position of the displayed
    /// list, for the clipboard; `None` without a selection.
    pub fn copy_password(&self) -> (text: Option<String>)
        requires
            self@.inv(),
        ensures
            text is Some == self@.selected is Some,
            self@.selected_password() == match text {
                Some(t) => Some(t@),
                None => None,
            },
    {
        match self.selected {
            Some(index) => Some(self.displayed()[index].password.clone()),
            None => None,
        }
    }
}

} // verus!
