use vstd::prelude::*;
use crate::entry::{Entry, EntryView, fresh_entry};
use crate::msg::{Msg, MsgView};

verus! {

/// The list and the two text buffers of the user interface.
pub struct State {
    entries: Vec<Entry>,
    value: String,
    edit_value: String,
}

/// A state as plain values.
pub struct StateView {
    pub entries: Seq<EntryView>,
    pub value: Seq<char>,
    pub edit_value: Seq<char>,
}

impl View for State {
    type V = StateView;

    closed spec fn view(&self) -> StateView {
        StateView {
            entries: self.entries@.map_values(|e: Entry| e@),
            value: self.value@,
            edit_value: self.edit_value@,
        }
    }
}

/// The state the interface starts with: the stored entries, or none when
/// nothing could be read, and empty buffers.
pub open spec fn restored(stored: Option<Seq<EntryView>>) -> StateView {
    StateView {
        entries: match stored {
            Some(entries) => entries,
            None => Seq::empty(),
        },
        value: Seq::empty(),
        edit_value: Seq::empty(),
    }
}

/// `s` with the completion of entry `i` flipped.
pub open spec fn toggled(s: StateView, i: int) -> StateView {
    StateView {
        entries: s.entries.update(i, EntryView { completed: !s.entries[i].completed, ..s.entries[i] }),
        ..s
    }
}

/// `s` with the edit mode of entry `i` flipped.
pub open spec fn edit_toggled(s: StateView, i: int) -> StateView {
    StateView {
        entries: s.entries.update(i, EntryView { editing: !s.entries[i].editing, ..s.entries[i] }),
        ..s
    }
}

/// `s` with entry `i` given the text `t` and its edit mode flipped.
pub open spec fn edit_completed(s: StateView, i: int, t: Seq<char>) -> StateView {
    StateView {
        entries: s.entries.update(
            i,
            EntryView { description: t, editing: !s.entries[i].editing, ..s.entries[i] },
        ),
        ..s
    }
}

/// `s` without entry `i`.
pub open spec fn removed(s: StateView, i: int) -> StateView {
    StateView { entries: s.entries.remove(i), ..s }
}

/// Whether every index that `m` names is an entry of `s`.
pub open spec fn msg_fits(s: StateView, m: MsgView) -> bool {
    match m {
        MsgView::Edit(i) => i < s.entries.len(),
        MsgView::Remove(i) => i < s.entries.len(),
        MsgView::ToggleEdit(i) => i < s.entries.len(),
        MsgView::Toggle(i) => i < s.entries.len(),
        _ => true,
    }
}

/// The state after the message `m` is applied to `s`.
pub open spec fn step(s: StateView, m: MsgView) -> StateView {
    match m {
        MsgView::Add => StateView {
            entries: s.entries.push(fresh_entry(s.value)),
            value: Seq::empty(),
            ..s
        },
        MsgView::Edit(i) => StateView {
            edit_value: Seq::empty(),
            ..edit_completed(s, i as int, s.edit_value)
        },
        MsgView::Update(t) => StateView { value: t, ..s },
        MsgView::UpdateEdit(t) => StateView { edit_value: t, ..s },
        MsgView::Remove(i) => removed(s, i as int),
        MsgView::ToggleEdit(i) => StateView {
            edit_value: s.entries[i as int].description,
            ..edit_toggled(s, i as int)
        },
        MsgView::Toggle(i) => toggled(s, i as int),
        MsgView::Nope => s,
    }
}

impl State {
    /// The state to start from, given the entries read back from storage, if
    /// any could be read.
    pub fn restore(stored: Option<Vec<Entry>>) -> (r: State)
        ensures
            r@ == restored(
                match stored {
                    Some(v) => Some(v@.map_values(|e: Entry| e@)),
                    None => None,
                },
            ),
    {
        let entries = match stored {
            Some(v) => v,
            None => Vec::new(),
        };
        let r = State { entries, value: String::new(), edit_value: String::new() };
        assert(r@.entries =~= restored(
            match stored {
                Some(v) => Some(v@.map_values(|e: Entry| e@)),
                None => None,
            },
        ).entries);
        r
    }

    /// The entries, in display order.
    pub fn entries(&self) -> (r: &Vec<Entry>)
        ensures
            r@.map_values(|e: Entry| e@) == self@.entries,
    {
        &self.entries
    }

    /// The text of the input field for new entries.
    pub fn value(&self) -> (r: &String)
        ensures
            r@ == self@.value,
    {
        &self.value
    }

    /// The edit buffer.
    pub fn edit_value(&self) -> (r: &String)
        ensures
            r@ == self@.edit_value,
    {
        &self.edit_value
    }

    /// Flips whether entry `idx` is completed.
    pub fn toggle(&mut self, idx: usize)
        requires
            idx < old(self)@.entries.len(),
        ensures
            final(self)@ == toggled(old(self)@, idx as int),
    {
        let completed = self.entries[idx].completed;
        self.entries[idx].completed = !completed;
        assert(final(self)@.entries =~= toggled(old(self)@, idx as int).entries);
    }
    /// Flips whether entry `idx` is being edited.
    pub fn toggle_edit(&mut self, idx: usize)
        requires
            idx < old(self)@.entries.len(),
        ensures
            final(self)@ == edit_toggled(old(self)@, idx as int),
    {
        let editing = self.entries[idx].editing;
        self.entries[idx].editing = !editing;
        assert(final(self)@.entries =~= edit_toggled(old(self)@, idx as int).entries);
    }

    /// Gives entry `idx` the text `val` and flips whether it is being edited.
    pub fn complete_edit(&mut self, idx: usize, val: String)
        requires
            idx < old(self)@.entries.len(),
        ensures
            final(self)@ == edit_completed(old(self)@, idx as int, val@),
    {
        let editing = self.entries[idx].editing;
        self.entries[idx].description = val;
        self.entries[idx].editing = !editing;
        assert(final(self)@.entries =~= edit_completed(old(self)@, idx as int, val@).entries);
    }

    /// Deletes entry `idx`; the entries after it move down by one.
    pub fn remove(&mut self, idx: usize)
        requires
            idx < old(self)@.entries.len(),
        ensures
            final(self)@ == removed(old(self)@, idx as int),
    {
        self.entries.remove(idx);
        assert(final(self)@.entries =~= removed(old(self)@, idx as int).entries);
    }

    /// Whether every index that `msg` names is an entry of this state.
    pub fn accepts(&self, msg: &Msg) -> (r: bool)
        ensures
            r == msg_fits(self@, msg@),
    {
        match msg {
            Msg::Edit(i) => *i < self.entries.len(),
            Msg::Remove(i) => *i < self.entries.len(),
            Msg::ToggleEdit(i) => *i < self.entries.len(),
            Msg::Toggle(i) => *i < self.entries.len(),
            _ => true,
        }
    }

    /// Applies `msg`. The result says whether the interface should be drawn
    /// again, which it always should.
    pub fn update(&mut self, msg: Msg) -> (r: bool)
        requires
            msg_fits(old(self)@, msg@),
        ensures
            final(self)@ == step(old(self)@, msg@),
            r,
    {
        match msg {
            Msg::Add => {
                let entry = Entry::new(self.value.clone());
                self.entries.push(entry);
                self.value = String::new();
                assert(self@.entries =~= step(old(self)@, msg@).entries);
            },
            Msg::Edit(idx) => {
                let edit_value = self.edit_value.clone();
                self.complete_edit(idx, edit_value);
                self.edit_value = String::new();
            },
            Msg::Update(val) => {
                self.value = val;
            },
            Msg::UpdateEdit(val) => {
                self.edit_value = val;
            },
            Msg::Remove(idx) => {
                self.remove(idx);
            },
            Msg::ToggleEdit(idx) => {
                self.edit_value = self.entries[idx].description.clone();
                self.toggle_edit(idx);
            },
            Msg::Toggle(idx) => {
                self.toggle(idx);
            },
            Msg::Nope => {},
        }
        true
    }
}

} // verus!
