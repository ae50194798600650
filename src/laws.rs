use vstd::prelude::*;
use crate::entry::EntryView;
use crate::msg::MsgView;
use crate::state::{StateView, restored, step};

verus! {

/// Toggling entry `i` flips its completion and changes nothing else.
pub proof fn lemma_toggle_flips_only(s: StateView, i: nat)
    requires
        i < s.entries.len(),
    ensures
        ({
            let t = step(s, MsgView::Toggle(i));
            &&& t.entries.len() == s.entries.len()
            &&& t.entries[i as int] == (EntryView {
                completed: !s.entries[i as int].completed,
                ..s.entries[i as int]
            })
            &&& forall|j: int| 0 <= j < s.entries.len() && j != i ==> t.entries[j] == s.entries[j]
            &&& t.value == s.value
            &&& t.edit_value == s.edit_value
        }),
{
}

/// Toggling the same entry twice gives back the state it started from.
pub proof fn lemma_toggle_twice(s: StateView, i: nat)
    requires
        i < s.entries.len(),
    ensures
        step(step(s, MsgView::Toggle(i)), MsgView::Toggle(i)) == s,
{
    let t = step(step(s, MsgView::Toggle(i)), MsgView::Toggle(i));
    assert(t.entries =~= s.entries);
}

/// Removing entry `i` shortens the list by one, keeps the entries before it,
/// and moves those after it down by one, unchanged.
pub proof fn lemma_remove_shifts(s: StateView, i: nat)
    requires
        i < s.entries.len(),
    ensures
        ({
            let t = step(s, MsgView::Remove(i));
            &&& t.entries.len() == s.entries.len() - 1
            &&& forall|j: int| 0 <= j < i ==> t.entries[j] == s.entries[j]
            &&& forall|j: int| i <= j < t.entries.len() ==> t.entries[j] == s.entries[j + 1]
            &&& t.value == s.value
            &&& t.edit_value == s.edit_value
        }),
{
}

/// The entries that are stored, once read back, are the entries of the state
/// the interface starts from, in the same order.
pub proof fn lemma_restore_stored(s: StateView)
    ensures
        restored(Some(s.entries)).entries == s.entries,
        restored(Some(s.entries)).value == Seq::<char>::empty(),
        restored(Some(s.entries)).edit_value == Seq::<char>::empty(),
{
}

/// Entering edit mode on an entry fills the edit buffer with its text.
pub proof fn lemma_edit_seeds_buffer(s: StateView, i: nat)
    requires
        i < s.entries.len(),
        !s.entries[i as int].editing,
    ensures
        step(s, MsgView::ToggleEdit(i)).edit_value == s.entries[i as int].description,
        step(s, MsgView::ToggleEdit(i)).entries[i as int].editing,
{
}

/// Entering edit mode on entry `i`, typing `text` and committing gives that
/// entry the text `text` and leaves edit mode; no other entry changes and the
/// edit buffer is emptied.
pub proof fn lemma_edit_commit(s: StateView, i: nat, text: Seq<char>)
    requires
        i < s.entries.len(),
        !s.entries[i as int].editing,
    ensures
        ({
            let t = step(
                step(step(s, MsgView::ToggleEdit(i)), MsgView::UpdateEdit(text)),
                MsgView::Edit(i),
            );
            &&& t.entries.len() == s.entries.len()
            &&& t.entries[i as int] == (EntryView { description: text, ..s.entries[i as int] })
            &&& forall|j: int| 0 <= j < s.entries.len() && j != i ==> t.entries[j] == s.entries[j]
            &&& t.value == s.value
            &&& t.edit_value == Seq::<char>::empty()
        }),
{
}

/// Entering edit mode on entry `i`, typing `text` and leaving edit mode
/// without committing keeps every entry as it was: what was typed is dropped.
pub proof fn lemma_edit_cancel(s: StateView, i: nat, text: Seq<char>)
    requires
        i < s.entries.len(),
    ensures
        step(
            step(step(s, MsgView::ToggleEdit(i)), MsgView::UpdateEdit(text)),
            MsgView::ToggleEdit(i),
        ).entries == s.entries,
{
    let t = step(
        step(step(s, MsgView::ToggleEdit(i)), MsgView::UpdateEdit(text)),
        MsgView::ToggleEdit(i),
    );
    assert(t.entries =~= s.entries);
}

} // verus!
