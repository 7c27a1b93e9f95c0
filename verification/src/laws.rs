//! What holds of the session whatever is typed and whatever the store
//! answers.

use vstd::prelude::*;
use crate::filter::{
    lemma_covers_push, lemma_covers_sound, lemma_empty_covers, lemma_matching_empty_text,
    lemma_matching_splits, lemma_without_id, matching, splits_by_prefix, title_matches,
    without_id,
};
use crate::machine::step;
use crate::mode::{ActionView, InputMode, Key};
use crate::model::PassMngView;
use crate::record::PasswordView;
use crate::store::StoreError;

verus! {

/// Every operation that waits for the store keeps the invariant once the
/// store has answered: a completed insertion, edit and deletion each leave a
/// session whose search list holds only its own matching records, whose
/// selection is on screen and whose edit target exists.
pub proof fn lemma_completions_keep_invariant(s: PassMngView, id: usize)
    requires
        s.inv(),
    ensures
        s.inserted(id).inv(),
        s.edited().inv(),
        s.deleted().inv(),
{
    s.lemma_displayed_in_passwords();
    lemma_covers_push(s.passwords, s.draft(id), s.search_txt, s.search_list);
    if let Some(i) = s.edit_index {
        PassMngView {
            passwords: s.passwords.update(i as int, s.draft(s.passwords[i as int].id)),
            edit_index: None,
            mode: InputMode::List,
            ..s.cleared()
        }.lemma_refreshed();
    }
    if s.delete_pending() {
        let i = s.selected->0;
        let left = without_id(s.passwords, s.displayed()[i as int].id);
        PassMngView {
            passwords: left,
            selected: if left.len() > 0 && i + 1 < s.displayed().len() {
                Some(0usize)
            } else {
                None
            },
            edit_index: None,
            mode: InputMode::List,
            ..s
        }.lemma_refreshed();
    }
}

/// In every session that meets the invariant, the search list holds only
/// records of the session whose title begins with the search text, and is no
/// longer than the full list.
pub proof fn lemma_search_list_holds_matching_records(s: PassMngView)
    requires
        s.inv(),
    ensures
        s.search_list.len() <= s.passwords.len(),
        forall|i: int|
            0 <= i < s.search_list.len() ==> title_matches(
                #[trigger] s.search_list[i],
                s.search_txt,
            ) && s.passwords.contains(s.search_list[i]),
{
    lemma_covers_sound(s.passwords, s.search_txt, s.search_list);
}

/// No key press breaks the invariant.
pub proof fn lemma_step_keeps_invariant(s: PassMngView, key: Key)
    requires
        s.inv(),
    ensures
        step(s, key).0.inv(),
{
    s.lemma_displayed_in_passwords();
    if let Key::Char(c) = key {
        s.lemma_searched(s.search_txt.push(c));
    }
    s.lemma_searched(s.search_txt);
    s.lemma_searched(s.search_txt.drop_last());
}

/// What holds of a session that only key presses, and the store's answers to
/// what those key presses asked for, have changed: beyond the invariant, an
/// edit is in progress only in the edit fields and at the submit prompt, and
/// the delete prompt is open only over a selected record.
pub open spec fn coherent(s: PassMngView) -> bool {
    &&& s.inv()
    &&& s.editing() ==> (s.mode == InputMode::Title || s.mode == InputMode::Username || s.mode
        == InputMode::Password || s.mode == InputMode::Submit)
    &&& s.mode == InputMode::Delete ==> s.selected is Some
}

/// A session that has just loaded its records is coherent.
pub proof fn lemma_initial_coherent(records: Seq<PasswordView>)
    ensures
        coherent(PassMngView::initial(records)),
{
    lemma_empty_covers(records, Seq::empty());
}

/// No key press makes a coherent session incoherent.
pub proof fn lemma_step_keeps_coherent(s: PassMngView, key: Key)
    requires
        coherent(s),
    ensures
        coherent(step(s, key).0),
{
    lemma_step_keeps_invariant(s, key);
}

/// The store is asked only for what the session can complete: an update only
/// while an edit is in progress, an insertion only while none is, a deletion
/// only while a delete request is pending; and the clipboard is filled only
/// from a selected record. A key press that asks something of the store
/// leaves the session as it was.
pub proof fn lemma_requests_are_due(s: PassMngView, key: Key)
    requires
        coherent(s),
    ensures
        step(s, key).1 is StoreInsert ==> !s.editing() && step(s, key).0 == s,
        step(s, key).1 is StoreUpdate ==> s.editing() && step(s, key).0 == s,
        step(s, key).1 is StoreDelete ==> s.delete_pending() && step(s, key).0 == s,
        step(s, key).1 is Copy ==> s.selected is Some && step(s, key).0 == s,
{
}

/// When the store has done what a key press asked for, the completed
/// operation leaves a coherent session.
pub proof fn lemma_answers_keep_coherent(s: PassMngView, key: Key, id: usize)
    requires
        coherent(s),
    ensures
        step(s, key).1 is StoreInsert ==> coherent(s.inserted(id)),
        step(s, key).1 is StoreUpdate ==> coherent(s.edited()),
        step(s, key).1 is StoreDelete ==> coherent(s.deleted()),
{
    lemma_completions_keep_invariant(s, id);
}

/// One turn of the session's loop: a key press, and what the store answered
/// if the key press asked something of it (for an insertion the answer
/// carries the assigned id; for an update or a deletion only success or
/// failure counts).
pub struct Turn {
    pub key: Key,
    pub answer: Result<usize, StoreError>,
}

/// The session after one turn: the key press is carried out, and where it
/// asked something of the store and the store succeeded, the operation is
/// completed. A failure of the store leaves the session as the key press
/// left it.
pub open spec fn after_turn(s: PassMngView, turn: Turn) -> PassMngView {
    let (pressed, action) = step(s, turn.key);
    match (action, turn.answer) {
        (ActionView::StoreInsert(_), Ok(id)) => pressed.inserted(id),
        (ActionView::StoreUpdate(_), Ok(_)) => pressed.edited(),
        (ActionView::StoreDelete(_), Ok(_)) => pressed.deleted(),
        _ => pressed,
    }
}

/// The session after a run of turns, one after the other.
pub open spec fn after_turns(s: PassMngView, turns: Seq<Turn>) -> PassMngView
    decreases turns.len(),
{
    if turns.len() == 0 {
        s
    } else {
        after_turn(after_turns(s, turns.drop_last()), turns.last())
    }
}

/// Whatever is typed and whatever the store answers, a session that began
/// coherent stays coherent: its search list holds only its own matching
/// records, its selection is on screen, its edit target exists, an edit is in progress only while a
/// record is being typed, and the delete prompt is open only over a selected
/// record.
pub proof fn lemma_turns_keep_coherent(s: PassMngView, turns: Seq<Turn>)
    requires
        coherent(s),
    ensures
        coherent(after_turns(s, turns)),
    decreases turns.len(),
{
    if turns.len() > 0 {
        lemma_turns_keep_coherent(s, turns.drop_last());
        let before = after_turns(s, turns.drop_last());
        let turn = turns.last();
        lemma_step_keeps_coherent(before, turn.key);
        lemma_requests_are_due(before, turn.key);
        if let Ok(id) = turn.answer {
            lemma_answers_keep_coherent(before, turn.key, id);
        }
    }
}

/// A turn in which the store fails changes no record: the list of records
/// is what it was before the key press.
pub proof fn lemma_failure_changes_no_record(s: PassMngView, turn: Turn)
    requires
        turn.answer is Err,
    ensures
        after_turn(s, turn).passwords == s.passwords,
{
}

/// Searching twice for the same text gives what searching once gives.
pub proof fn lemma_search_idempotent(s: PassMngView, text: Seq<char>)
    ensures
        s.searched(text).searched(text) == s.searched(text),
{
}

/// After a search for `text`, every record of the search list begins with
/// `text`, and every record that the search list leaves out does not.
pub proof fn lemma_search_splits(s: PassMngView, text: Seq<char>)
    ensures
        splits_by_prefix(s.passwords, text, s.searched(text).search_list),
        s.searched(text).passwords == s.passwords,
{
    lemma_matching_splits(s.passwords, text);
}

/// A search for the empty text finds every record.
pub proof fn lemma_search_for_nothing_finds_all(s: PassMngView)
    ensures
        s.searched(Seq::empty()).search_list == s.passwords,
{
    lemma_matching_empty_text(s.passwords);
}

/// A search sees the records that were inserted since the last one: after
/// it the search list is the match list of every record, whatever it was
/// before.
pub proof fn lemma_search_is_current(s: PassMngView, text: Seq<char>)
    ensures
        s.searched(text).search_list == matching(s.passwords, text),
        s.searched(text).search_txt == text,
{
}

/// The session after `n` moves up.
pub open spec fn moved_up_times(s: PassMngView, n: nat) -> PassMngView
    decreases n,
{
    if n == 0 {
        s
    } else {
        moved_up_times(s, (n - 1) as nat).moved_up()
    }
}

/// The session after `n` moves down.
pub open spec fn moved_down_times(s: PassMngView, n: nat) -> PassMngView
    decreases n,
{
    if n == 0 {
        s
    } else {
        moved_down_times(s, (n - 1) as nat).moved_down()
    }
}

/// However often the selection is moved up from the first position, it stays
/// there and nothing else changes.
pub proof fn lemma_move_up_stays_at_first(s: PassMngView, n: nat)
    requires
        s.selected == Some(0usize),
    ensures
        moved_up_times(s, n) == s,
    decreases n,
{
    if n > 0 {
        lemma_move_up_stays_at_first(s, (n - 1) as nat);
    }
}

/// However often the selection is moved down from the last position of the
/// displayed list, it stays there and nothing else changes.
pub proof fn lemma_move_down_stays_at_last(s: PassMngView, n: nat)
    requires
        s.at_last(),
    ensures
        moved_down_times(s, n) == s,
    decreases n,
{
    if n > 0 {
        lemma_move_down_stays_at_last(s, (n - 1) as nat);
    }
}

/// One attempt to insert a record: what stood in the edit buffers, and what
/// the store answered.
pub struct Insertion {
    pub title: Seq<char>,
    pub username: Seq<char>,
    pub password: Seq<char>,
    pub stored: Result<usize, StoreError>,
}

impl Insertion {
    /// The record that a successful attempt adds to the session.
    pub open spec fn record(self) -> PasswordView {
        PasswordView {
            id: self.stored->Ok_0,
            title: self.title,
            username: self.username,
            password: self.password,
        }
    }
}

/// The session after one attempt: the buffers are filled, and the record is
/// inserted if the store accepted it.
pub open spec fn after_insertion(s: PassMngView, attempt: Insertion) -> PassMngView {
    let typed = PassMngView {
        new_title: attempt.title,
        new_username: attempt.username,
        new_password: attempt.password,
        ..s
    };
    match attempt.stored {
        Ok(id) => typed.inserted(id),
        Err(_) => typed,
    }
}

/// The session after a run of attempts, one after the other.
pub open spec fn after_insertions(s: PassMngView, attempts: Seq<Insertion>) -> PassMngView
    decreases attempts.len(),
{
    if attempts.len() == 0 {
        s
    } else {
        after_insertion(after_insertions(s, attempts.drop_last()), attempts.last())
    }
}

/// The records of the attempts that the store accepted, in order.
pub open spec fn persisted(attempts: Seq<Insertion>) -> Seq<PasswordView>
    decreases attempts.len(),
{
    if attempts.len() == 0 {
        Seq::empty()
    } else if attempts.last().stored is Ok {
        persisted(attempts.drop_last()).push(attempts.last().record())
    } else {
        persisted(attempts.drop_last())
    }
}

/// The number of attempts that the store accepted.
pub open spec fn successes(attempts: Seq<Insertion>) -> nat
    decreases attempts.len(),
{
    if attempts.len() == 0 {
        0
    } else if attempts.last().stored is Ok {
        successes(attempts.drop_last()) + 1
    } else {
        successes(attempts.drop_last())
    }
}

/// The ids of a list of records, in order.
pub open spec fn ids(records: Seq<PasswordView>) -> Seq<usize> {
    records.map_values(|r: PasswordView| r.id)
}

/// The ids that the store assigned over a run of attempts, in order.
pub open spec fn assigned_ids(attempts: Seq<Insertion>) -> Seq<usize>
    decreases attempts.len(),
{
    if attempts.len() == 0 {
        Seq::empty()
    } else if attempts.last().stored is Ok {
        assigned_ids(attempts.drop_last()).push(attempts.last().stored->Ok_0)
    } else {
        assigned_ids(attempts.drop_last())
    }
}

/// After any run of insertion attempts the session holds the records it
/// began with, followed by one record for each attempt that the store
/// accepted: as many as there were successes, each with what was typed and
/// under the id that the store assigned. The invariant still holds.
pub proof fn lemma_insertions_append(s: PassMngView, attempts: Seq<Insertion>)
    requires
        s.inv(),
    ensures
        after_insertions(s, attempts).passwords == s.passwords + persisted(attempts),
        after_insertions(s, attempts).passwords.len() == s.passwords.len() + successes(attempts),
        persisted(attempts).len() == successes(attempts),
        after_insertions(s, attempts).inv(),
    decreases attempts.len(),
{
    if attempts.len() > 0 {
        let earlier = attempts.drop_last();
        lemma_insertions_append(s, earlier);
        let before = after_insertions(s, earlier);
        let last = attempts.last();
        let typed = PassMngView {
            new_title: last.title,
            new_username: last.username,
            new_password: last.password,
            ..before
        };
        assert(typed.inv());
        if let Ok(id) = last.stored {
            lemma_completions_keep_invariant(typed, id);
            assert(typed.draft(id) == last.record());
            assert(s.passwords + persisted(attempts) =~= (s.passwords + persisted(earlier)).push(
                last.record(),
            ));
        }
    } else {
        assert(s.passwords + persisted(attempts) =~= s.passwords);
    }
}

/// The ids of the inserted records are the ids that the store assigned, in
/// the order in which it assigned them.
pub proof fn lemma_persisted_ids(attempts: Seq<Insertion>)
    ensures
        ids(persisted(attempts)) == assigned_ids(attempts),
    decreases attempts.len(),
{
    if attempts.len() > 0 {
        lemma_persisted_ids(attempts.drop_last());
        if attempts.last().stored is Ok {
            assert(ids(persisted(attempts)) =~= ids(persisted(attempts.drop_last())).push(
                attempts.last().record().id,
            ));
        }
    } else {
        assert(ids(persisted(attempts)) =~= Seq::<usize>::empty());
    }
}

/// Where the store hands out ids that are new each time (no two of the ids
/// it assigned are equal, and none belongs to a record that the session
/// began with), no two records of the session share an id after any run of
/// insertion attempts.
pub proof fn lemma_insertions_keep_ids_distinct(s: PassMngView, attempts: Seq<Insertion>)
    requires
        s.inv(),
        (ids(s.passwords) + assigned_ids(attempts)).no_duplicates(),
    ensures
        ids(after_insertions(s, attempts).passwords) == ids(s.passwords) + assigned_ids(attempts),
        ids(after_insertions(s, attempts).passwords).no_duplicates(),
{
    lemma_insertions_append(s, attempts);
    lemma_persisted_ids(attempts);
    assert(ids(s.passwords + persisted(attempts)) =~= ids(s.passwords) + ids(persisted(attempts)));
}

/// One insertion under an id that no record of the session has keeps the ids
/// of the session distinct, and the new record stands last under that id.
/// That the store hands out such an id is the store's to keep.
pub proof fn lemma_insert_keeps_ids_distinct(s: PassMngView, id: usize)
    requires
        ids(s.passwords).no_duplicates(),
        !ids(s.passwords).contains(id),
    ensures
        s.inserted(id).passwords.last().id == id,
        s.inserted(id).passwords.drop_last() == s.passwords,
        ids(s.inserted(id).passwords).no_duplicates(),
{
    assert(s.inserted(id).passwords.drop_last() =~= s.passwords);
    assert(ids(s.inserted(id).passwords) =~= ids(s.passwords).push(id));
}

/// A completed insertion moves neither the selection nor the search: the
/// search text and the search list are what they were.
pub proof fn lemma_insert_keeps_selection(s: PassMngView, id: usize)
    ensures
        s.inserted(id).selected == s.selected,
        s.inserted(id).search_txt == s.search_txt,
        s.inserted(id).search_list == s.search_list,
        s.inserted(id).edit_index == s.edit_index,
{
}

/// The record that a completed insertion appends is the record that the
/// store was asked to persist, under the id that the store assigned: the
/// session and the store hold the same fields under the same id.
pub proof fn lemma_insert_appends_what_was_sent(s: PassMngView, key: Key, id: usize)
    requires
        s.inv(),
        step(s, key).1 is StoreInsert,
    ensures
        s.inserted(id).passwords == s.passwords.push(
            PasswordView { id, ..step(s, key).1->StoreInsert_0 },
        ),
{
}

/// The record that a completed edit puts in place is the record that the
/// store was asked to write, and it keeps the id of the record it replaces.
pub proof fn lemma_edit_replaces_with_what_was_sent(s: PassMngView, key: Key)
    requires
        s.inv(),
        step(s, key).1 is StoreUpdate,
    ensures
        s.edit_index is Some,
        s.edited().passwords == s.passwords.update(
            s.edit_index->0 as int,
            step(s, key).1->StoreUpdate_0,
        ),
        step(s, key).1->StoreUpdate_0.id == s.passwords[s.edit_index->0 as int].id,
{
}

/// A completed deletion removes what the store was asked to delete: the id
/// sent is the id of the record at the selected position of the displayed
/// list, no record of that id is left in the session, and every record of
/// another id stays, in its order.
pub proof fn lemma_delete_removes_what_was_sent(s: PassMngView, key: Key)
    requires
        s.inv(),
        step(s, key).1 is StoreDelete,
    ensures
        s.selected is Some,
        s.displayed()[s.selected->0 as int].id == step(s, key).1->StoreDelete_0,
        s.passwords.contains(s.displayed()[s.selected->0 as int]),
        s.deleted().passwords == without_id(s.passwords, step(s, key).1->StoreDelete_0),
        !ids(s.deleted().passwords).contains(step(s, key).1->StoreDelete_0),
        forall|i: int|
            0 <= i < s.passwords.len() && (#[trigger] s.passwords[i]).id != step(
                s,
                key,
            ).1->StoreDelete_0 ==> s.deleted().passwords.contains(s.passwords[i]),
{
    s.lemma_displayed_in_passwords();
    let gone = s.displayed()[s.selected->0 as int].id;
    let left = without_id(s.passwords, gone);
    lemma_without_id(s.passwords, gone);
    if ids(left).contains(gone) {
        let k = choose|k: int| 0 <= k < ids(left).len() && ids(left)[k] == gone;
        assert(left[k].id == gone);
    }
}

} // verus!
