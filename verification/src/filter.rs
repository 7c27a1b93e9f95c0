//! Filtering a list of records by a prefix of the title, and removing the
//! records of one id.

use vstd::prelude::*;
use crate::record::{Password, PasswordView};
use crate::text::starts_with;

verus! {

/// The models of a list of records, in order.
pub open spec fn views(records: Seq<Password>) -> Seq<PasswordView> {
    records.map_values(|p: Password| p@)
}

/// Does the record's title begin with `text`? Every title begins with the
/// empty text.
pub open spec fn title_matches(record: PasswordView, text: Seq<char>) -> bool {
    text.is_prefix_of(record.title)
}

/// The records whose title begins with `text`, in the order of `records`.
pub open spec fn matching(records: Seq<PasswordView>, text: Seq<char>) -> Seq<PasswordView> {
    records.filter(|r: PasswordView| title_matches(r, text))
}

/// `found` holds only records of `records` whose title begins with `text`,
/// and leaves out no record of `records` whose title does.
pub open spec fn splits_by_prefix(
    records: Seq<PasswordView>,
    text: Seq<char>,
    found: Seq<PasswordView>,
) -> bool {
    &&& forall|i: int|
        0 <= i < found.len() ==> title_matches(#[trigger] found[i], text) && records.contains(
            found[i],
        )
    &&& forall|i: int|
        0 <= i < records.len() && !found.contains(#[trigger] records[i]) ==> !title_matches(
            records[i],
            text,
        )
}

/// `found` is the match list of a search that saw the first records of
/// `records`, all of them or only some: it may lack a record that was added
/// after the search, and nothing else.
pub open spec fn covers(records: Seq<PasswordView>, text: Seq<char>, found: Seq<PasswordView>) -> bool {
    exists|n: int| 0 <= n <= records.len() && found == matching(#[trigger] records.take(n), text)
}

/// The records whose id is not `id`, in the order of `records`.
pub open spec fn without_id(records: Seq<PasswordView>, id: usize) -> Seq<PasswordView> {
    records.filter(|r: PasswordView| r.id != id)
}

/// Adding a record at the end adds it to the matches exactly when its title
/// begins with the text.
pub proof fn lemma_matching_push(records: Seq<PasswordView>, record: PasswordView, text: Seq<char>)
    ensures
        matching(records.push(record), text) == if title_matches(record, text) {
            matching(records, text).push(record)
        } else {
            matching(records, text)
        },
{
    reveal(Seq::filter);
    assert(records.push(record).drop_last() =~= records);
}

/// No list has more matches than records.
pub proof fn lemma_matching_len(records: Seq<PasswordView>, text: Seq<char>)
    ensures
        matching(records, text).len() <= records.len(),
{
    records.lemma_filter_len(|r: PasswordView| title_matches(r, text));
}

/// Every match begins with the text and comes from the list; every record
/// of the list that is no match does not begin with the text.
pub proof fn lemma_matching_splits(records: Seq<PasswordView>, text: Seq<char>)
    ensures
        splits_by_prefix(records, text, matching(records, text)),
{
    let pred = |r: PasswordView| title_matches(r, text);
    let found = matching(records, text);
    assert forall|i: int| 0 <= i < found.len() implies title_matches(#[trigger] found[i], text)
        && records.contains(found[i]) by {
        records.lemma_filter_pred(pred, i);
        assert(found.contains(found[i]));
        records.lemma_filter_contains_rev(pred, found[i]);
    }
    assert forall|i: int|
        0 <= i < records.len() && !found.contains(#[trigger] records[i]) implies !title_matches(
        records[i],
        text,
    ) by {
        if title_matches(records[i], text) {
            records.lemma_filter_contains(pred, i);
        }
    }
}

/// Every title begins with the empty text, so the empty text matches every
/// record.
pub proof fn lemma_matching_empty_text(records: Seq<PasswordView>)
    ensures
        matching(records, Seq::empty()) == records,
    decreases records.len(),
{
    reveal(Seq::filter);
    if records.len() > 0 {
        lemma_matching_empty_text(records.drop_last());
        let last = records.last();
        assert(Seq::<char>::empty().is_prefix_of(last.title));
        assert(records.drop_last().push(last) =~= records);
    }
}

/// The match list of the whole list covers it.
pub proof fn lemma_matching_covers(records: Seq<PasswordView>, text: Seq<char>)
    ensures
        covers(records, text, matching(records, text)),
{
    assert(records.take(records.len() as int) =~= records);
}

/// The empty list covers every list, as the match list of none of its
/// records.
pub proof fn lemma_empty_covers(records: Seq<PasswordView>, text: Seq<char>)
    ensures
        covers(records, text, Seq::empty()),
{
    reveal(Seq::filter);
    assert(matching(records.take(0), text) =~= Seq::<PasswordView>::empty());
}

/// A list that covers `records` still covers them after a record is added at
/// the end.
pub proof fn lemma_covers_push(
    records: Seq<PasswordView>,
    record: PasswordView,
    text: Seq<char>,
    found: Seq<PasswordView>,
)
    requires
        covers(records, text, found),
    ensures
        covers(records.push(record), text, found),
{
    let n = choose|n: int| 0 <= n <= records.len() && found == matching(records.take(n), text);
    assert(records.push(record).take(n) =~= records.take(n));
}

/// A list that covers `records` holds only records of `records` whose title
/// begins with `text`, and no more records than `records` has.
pub proof fn lemma_covers_sound(
    records: Seq<PasswordView>,
    text: Seq<char>,
    found: Seq<PasswordView>,
)
    requires
        covers(records, text, found),
    ensures
        found.len() <= records.len(),
        forall|i: int|
            0 <= i < found.len() ==> title_matches(#[trigger] found[i], text) && records.contains(
                found[i],
            ),
{
    let n = choose|n: int| 0 <= n <= records.len() && found == matching(records.take(n), text);
    let seen = records.take(n);
    lemma_matching_len(seen, text);
    lemma_matching_splits(seen, text);
    assert forall|i: int| 0 <= i < found.len() implies title_matches(#[trigger] found[i], text)
        && records.contains(found[i]) by {
        assert(seen.contains(found[i]));
        let k = choose|k: int| 0 <= k < seen.len() && seen[k] == found[i];
        assert(records[k] == found[i]);
    }
}

/// Adding a record at the end keeps it exactly when its id is not `id`.
pub proof fn lemma_without_id_push(records: Seq<PasswordView>, record: PasswordView, id: usize)
    ensures
        without_id(records.push(record), id) == if record.id != id {
            without_id(records, id).push(record)
        } else {
            without_id(records, id)
        },
{
    reveal(Seq::filter);
    assert(records.push(record).drop_last() =~= records);
}

/// Removing the records of one id leaves no record of that id, keeps every
/// record of another id, and adds none.
pub proof fn lemma_without_id(records: Seq<PasswordView>, id: usize)
    ensures
        without_id(records, id).len() <= records.len(),
        forall|i: int|
            0 <= i < without_id(records, id).len() ==> (#[trigger] without_id(records, id)[i]).id
                != id && records.contains(without_id(records, id)[i]),
        forall|i: int|
            0 <= i < records.len() && (#[trigger] records[i]).id != id ==> without_id(
                records,
                id,
            ).contains(records[i]),
{
    let pred = |r: PasswordView| r.id != id;
    let left = without_id(records, id);
    records.lemma_filter_len(pred);
    assert forall|i: int| 0 <= i < left.len() implies (#[trigger] left[i]).id != id
        && records.contains(left[i]) by {
        records.lemma_filter_pred(pred, i);
        assert(left.contains(left[i]));
        records.lemma_filter_contains_rev(pred, left[i]);
    }
    assert forall|i: int| 0 <= i < records.len() && (#[trigger] records[i]).id != id implies left.contains(
        records[i],
    ) by {
        records.lemma_filter_contains(pred, i);
    }
}

/// The records of `records` whose title begins with `text`, copied in order.
pub fn filter_by_title(records: &Vec<Password>, text: &str) -> (found: Vec<Password>)
    ensures
        views(found@) == matching(views(records@), text@),
        splits_by_prefix(views(records@), text@, views(found@)),
{
    proof {
        lemma_matching_splits(views(records@), text@);
    }
    let mut found: Vec<Password> = Vec::new();
    let mut i: usize = 0;
    proof {
        reveal(Seq::filter);
        assert(views(records@.take(0)) =~= Seq::<PasswordView>::empty());
        assert(views(found@) =~= Seq::<PasswordView>::empty());
    }
    while i < records.len()
        invariant
            i <= records.len(),
            views(found@) == matching(views(records@.take(i as int)), text@),
        decreases records.len() - i,
    {
        let record = &records[i];
        proof {
            lemma_matching_push(views(records@.take(i as int)), record@, text@);
            assert(views(records@.take(i as int)).push(record@) =~= views(
                records@.take(i as int + 1),
            ));
        }
        if starts_with(record.title.as_str(), text) {
            let ghost before = found@;
            found.push(record.clone());
            assert(views(found@) =~= views(before).push(record@));
        }
        i = i + 1;
    }
    assert(records@.take(i as int) =~= records@);
    found
}

/// The records of `records` whose id is not `id`, copied in order.
pub fn remove_id(records: &Vec<Password>, id: usize) -> (left: Vec<Password>)
    ensures
        views(left@) == without_id(views(records@), id),
{
    let mut left: Vec<Password> = Vec::new();
    let mut i: usize = 0;
    proof {
        reveal(Seq::filter);
        assert(views(records@.take(0)) =~= Seq::<PasswordView>::empty());
        assert(views(left@) =~= Seq::<PasswordView>::empty());
    }
    while i < records.len()
        invariant
            i <= records.len(),
            views(left@) == without_id(views(records@.take(i as int)), id),
        decreases records.len() - i,
    {
        let record = &records[i];
        proof {
            lemma_without_id_push(views(records@.take(i as int)), record@, id);
            assert(views(records@.take(i as int)).push(record@) =~= views(
                records@.take(i as int + 1),
            ));
        }
        if record.id != id {
            let ghost before = left@;
            left.push(record.clone());
            assert(views(left@) =~= views(before).push(record@));
        }
        i = i + 1;
    }
    assert(records@.take(i as int) =~= records@);
    left
}

} // verus!
