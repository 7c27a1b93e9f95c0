//! The session as a mathematical value, and each operation as a function
//! from the value before to the value after.

use vstd::prelude::*;
use crate::filter::{covers, lemma_covers_sound, lemma_matching_covers, matching, without_id};
use crate::mode::{Field, InputMode};
use crate::record::PasswordView;

verus! {

/// Everything a session holds.
pub struct PassMngView {
    /// The current input mode.
    pub mode: InputMode,
    /// The selected position in the displayed list, if any.
    pub selected: Option<usize>,
    /// Every loaded record, in load order followed by insertion order.
    pub passwords: Seq<PasswordView>,
    /// The search text.
    pub search_txt: Seq<char>,
    /// The match list of the last search. It is empty before the first
    /// search, and may lack a record that was inserted since the last one.
    pub search_list: Seq<PasswordView>,
    /// The edit buffer for the title.
    pub new_title: Seq<char>,
    /// The edit buffer for the username.
    pub new_username: Seq<char>,
    /// The edit buffer for the password.
    pub new_password: Seq<char>,
    /// The position of the record being edited; `None` while the buffers
    /// stand for a new record.
    pub edit_index: Option<usize>,
}

/// A selection made to fit a list of `len` entries: kept where it is a
/// position of the list, moved to the last position where it lies beyond,
/// and dropped where the list is empty.
pub open spec fn clamp_selection(selected: Option<usize>, len: nat) -> Option<usize> {
    match selected {
        Some(i) => if i < len {
            Some(i)
        } else if len > 0 {
            Some((len - 1) as usize)
        } else {
            None
        },
        None => None,
    }
}

impl PassMngView {
    /// The list on screen: the search list, or every record where the search
    /// list is empty.
    pub open spec fn displayed(self) -> Seq<PasswordView> {
        if self.search_list.len() > 0 {
            self.search_list
        } else {
            self.passwords
        }
    }

    /// Is an existing record being edited?
    pub open spec fn editing(self) -> bool {
        self.edit_index is Some
    }

    /// The edit target, where there is one, is a position of the full list.
    pub open spec fn edit_index_valid(self) -> bool {
        self.edit_index matches Some(i) ==> i < self.passwords.len()
    }

    /// The invariant of a session: the search list is the match list of a
    /// search that saw the records or the first of them (so it holds only
    /// records of the session whose title begins with the search text), the
    /// selection is a position of the displayed list, and the edit target is
    /// a position of the full list.
    pub open spec fn inv(self) -> bool {
        &&& covers(self.passwords, self.search_txt, self.search_list)
        &&& self.selected matches Some(i) ==> i < self.displayed().len()
        &&& self.edit_index_valid()
    }

    /// The session of a program that has just loaded `records`: at rest, with
    /// nothing selected, nothing typed, no search text and an empty search
    /// list.
    pub open spec fn initial(records: Seq<PasswordView>) -> PassMngView {
        PassMngView {
            mode: InputMode::Normal,
            selected: None,
            passwords: records,
            search_txt: Seq::empty(),
            search_list: Seq::empty(),
            new_title: Seq::empty(),
            new_username: Seq::empty(),
            new_password: Seq::empty(),
            edit_index: None,
        }
    }

    /// The search list computed anew from every record, and the selection
    /// made to fit what is then displayed.
    pub open spec fn refreshed(self) -> PassMngView {
        let list = matching(self.passwords, self.search_txt);
        let shown = PassMngView { search_list: list, ..self }.displayed();
        PassMngView {
            search_list: list,
            selected: clamp_selection(self.selected, shown.len()),
            ..self
        }
    }

    /// The session in another mode, all else unchanged.
    pub open spec fn with_mode(self, mode: InputMode) -> PassMngView {
        PassMngView { mode, ..self }
    }

    /// The three edit buffers emptied.
    pub open spec fn cleared(self) -> PassMngView {
        PassMngView {
            new_title: Seq::empty(),
            new_username: Seq::empty(),
            new_password: Seq::empty(),
            ..self
        }
    }

    /// The record that the edit buffers spell out, under the given id.
    pub open spec fn draft(self, id: usize) -> PasswordView {
        PasswordView {
            id,
            title: self.new_title,
            username: self.new_username,
            password: self.new_password,
        }
    }

    /// What stands in one of the edit buffers.
    pub open spec fn buffer(self, field: Field) -> Seq<char> {
        match field {
            Field::Title => self.new_title,
            Field::Username => self.new_username,
            Field::Password => self.new_password,
        }
    }

    /// One edit buffer replaced, all else unchanged.
    pub open spec fn with_buffer(self, field: Field, text: Seq<char>) -> PassMngView {
        match field {
            Field::Title => PassMngView { new_title: text, ..self },
            Field::Username => PassMngView { new_username: text, ..self },
            Field::Password => PassMngView { new_password: text, ..self },
        }
    }

    /// One character typed at the end of an edit buffer.
    pub open spec fn typed(self, field: Field, ch: char) -> PassMngView {
        self.with_buffer(field, self.buffer(field).push(ch))
    }

    /// The last character of an edit buffer removed; an empty buffer stays.
    pub open spec fn erased(self, field: Field) -> PassMngView {
        if self.buffer(field).len() > 0 {
            self.with_buffer(field, self.buffer(field).drop_last())
        } else {
            self
        }
    }

    /// The record that the store persisted under `id` appended, the buffers
    /// emptied, and the session back at rest. The search text, the search
    /// list and the selection stay as they were.
    pub open spec fn inserted(self, id: usize) -> PassMngView {
        PassMngView {
            passwords: self.passwords.push(self.draft(id)),
            mode: InputMode::Normal,
            ..self.cleared()
        }
    }

    /// The fields of the selected record copied into the buffers, for
    /// editing; nothing changes without a selection. The selection is read
    /// as a position of the full list, also while a search narrows what is
    /// displayed.
    pub open spec fn edit_started(self) -> PassMngView {
        match self.selected {
            Some(i) => PassMngView {
                new_title: self.passwords[i as int].title,
                new_username: self.passwords[i as int].username,
                new_password: self.passwords[i as int].password,
                edit_index: Some(i),
                mode: InputMode::Title,
                ..self
            },
            None => self,
        }
    }

    /// The edit target replaced by what the buffers spell out, under its old
    /// id, and the search list computed anew, since it may have held the
    /// record as it was. Nothing changes where no edit is in progress.
    pub open spec fn edited(self) -> PassMngView {
        match self.edit_index {
            Some(i) => PassMngView {
                passwords: self.passwords.update(
                    i as int,
                    self.draft(self.passwords[i as int].id),
                ),
                edit_index: None,
                mode: InputMode::List,
                ..self.cleared()
            }.refreshed(),
            None => self,
        }
    }

    /// The edit target forgotten: the buffers stand for a new record.
    pub open spec fn edit_ended(self) -> PassMngView {
        PassMngView { edit_index: None, ..self }
    }

    /// The delete prompt opened; nothing changes without a selection.
    pub open spec fn delete_requested(self) -> PassMngView {
        if self.selected is Some {
            self.with_mode(InputMode::Delete)
        } else {
            self
        }
    }

    /// The selected record: the record at the selected position of the
    /// displayed list.
    pub open spec fn selected_record(self) -> Option<PasswordView> {
        match self.selected {
            Some(i) => Some(self.displayed()[i as int]),
            None => None,
        }
    }

    /// Is a delete request pending, with a record to delete?
    pub open spec fn delete_pending(self) -> bool {
        self.mode == InputMode::Delete && self.selected is Some
    }

    /// The selected record removed: every record of its id leaves the
    /// session, every other record stays in its order, and the search list
    /// is computed anew. The selection goes to the first position if records
    /// remain and the removed record did not stand last on screen, else it is
    /// dropped. An edit in progress ends. Nothing changes where no delete is
    /// pending.
    pub open spec fn deleted(self) -> PassMngView {
        if self.delete_pending() {
            let i = self.selected->0;
            let left = without_id(self.passwords, self.displayed()[i as int].id);
            PassMngView {
                passwords: left,
                selected: if left.len() > 0 && i + 1 < self.displayed().len() {
                    Some(0usize)
                } else {
                    None
                },
                edit_index: None,
                mode: InputMode::List,
                ..self
            }.refreshed()
        } else {
            self
        }
    }

    /// The search text replaced and the search list computed from it.
    pub open spec fn searched(self, text: Seq<char>) -> PassMngView {
        PassMngView { search_txt: text, ..self }.refreshed()
    }

    /// One character typed at the end of the search text, and the search
    /// made for the longer text.
    pub open spec fn search_typed(self, ch: char) -> PassMngView {
        self.searched(self.search_txt.push(ch))
    }

    /// The last character of the search text removed, where there is one,
    /// and the search made for what is left.
    pub open spec fn search_erased(self) -> PassMngView {
        if self.search_txt.len() > 0 {
            self.searched(self.search_txt.drop_last())
        } else {
            self.searched(self.search_txt)
        }
    }

    /// The selection one position up, stopping at the first position. With no
    /// selection, the first position is selected if there is one.
    pub open spec fn moved_up(self) -> PassMngView {
        let selected = match self.selected {
            Some(i) => if i == 0 {
                Some(i)
            } else {
                Some((i - 1) as usize)
            },
            None => if self.displayed().len() > 0 {
                Some(0usize)
            } else {
                None
            },
        };
        PassMngView { selected, ..self }
    }

    /// The selection one position down, stopping at the last position. With
    /// no selection, the first position is selected if there is one.
    pub open spec fn moved_down(self) -> PassMngView {
        let selected = match self.selected {
            Some(i) => if i + 1 >= self.displayed().len() {
                Some(i)
            } else {
                Some((i + 1) as usize)
            },
            None => if self.displayed().len() > 0 {
                Some(0usize)
            } else {
                None
            },
        };
        PassMngView { selected, ..self }
    }

    /// Is the last position of the displayed list selected?
    pub open spec fn at_last(self) -> bool {
        self.selected matches Some(i) && i + 1 == self.displayed().len()
    }

    /// The selection dropped.
    pub open spec fn deselected(self) -> PassMngView {
        PassMngView { selected: None, ..self }
    }

    /// The username of the selected record, if a record is selected.
    pub open spec fn selected_username(self) -> Option<Seq<char>> {
        match self.selected_record() {
            Some(record) => Some(record.username),
            None => None,
        }
    }

    /// The password of the selected record, if a record is selected.
    pub open spec fn selected_password(self) -> Option<Seq<char>> {
        match self.selected_record() {
            Some(record) => Some(record.password),
            None => None,
        }
    }

    /// The displayed list is never longer than the full one, so a selection
    /// is a position of the full list too; and every displayed record is a
    /// record of the session.
    pub proof fn lemma_displayed_in_passwords(self)
        requires
            self.inv(),
        ensures
            self.displayed().len() <= self.passwords.len(),
            self.selected matches Some(i) ==> i < self.passwords.len(),
            forall|i: int|
                0 <= i < self.displayed().len() ==> self.passwords.contains(
                    #[trigger] self.displayed()[i],
                ),
    {
        lemma_covers_sound(self.passwords, self.search_txt, self.search_list);
        assert forall|i: int| 0 <= i < self.displayed().len() implies self.passwords.contains(
            #[trigger] self.displayed()[i],
        ) by {
            if self.search_list.len() == 0 {
                assert(self.passwords[i] == self.displayed()[i]);
            }
        }
    }

    /// Refreshing establishes the invariant wherever the edit target is in
    /// range, and leaves a search list that is the match list of every
    /// record.
    pub proof fn lemma_refreshed(self)
        ensures
            self.edit_index_valid() ==> self.refreshed().inv(),
            self.refreshed().search_list == matching(self.passwords, self.search_txt),
    {
        lemma_matching_covers(self.passwords, self.search_txt);
    }

    /// A search for any text keeps the invariant.
    pub proof fn lemma_searched(self, text: Seq<char>)
        requires
            self.inv(),
        ensures
            self.searched(text).inv(),
            self.searched(text).search_list == matching(self.passwords, text),
    {
        PassMngView { search_txt: text, ..self }.lemma_refreshed();
    }
}

} // verus!
