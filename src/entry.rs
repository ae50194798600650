use vstd::prelude::*;

verus! {

/// One task of the list.
#[derive(Debug, PartialEq, Eq)]
pub struct Entry {
    pub description: String,
    pub completed: bool,
    pub editing: bool,
}

/// What an entry holds, as plain values.
pub struct EntryView {
    pub description: Seq<char>,
    pub completed: bool,
    pub editing: bool,
}

impl View for Entry {
    type V = EntryView;

    open spec fn view(&self) -> EntryView {
        EntryView {
            description: self.description@,
            completed: self.completed,
            editing: self.editing,
        }
    }
}

/// A fresh entry: neither completed nor being edited.
pub open spec fn fresh_entry(description: Seq<char>) -> EntryView {
    EntryView { description, completed: false, editing: false }
}

/// The CSS class of an entry's row: `todo`, then ` editing` and ` completed`
/// for the flags that are set.
pub open spec fn class_of(e: EntryView) -> Seq<char> {
    "todo"@ + (if e.editing { " editing"@ } else { Seq::empty() }) + (if e.completed {
        " completed"@
    } else {
        Seq::empty()
    })
}

impl Entry {
    /// A new entry with the given text, neither completed nor being edited.
    pub fn new(description: String) -> (r: Entry)
        ensures
            r@ == fresh_entry(description@),
    {
        Entry { description, completed: false, editing: false }
    }

    /// The CSS class of this entry's row.
    pub fn class(&self) -> (r: String)
        ensures
            r@ == class_of(self@),
    {
        let mut class = String::from_str("todo");
        if self.editing {
            class.append(" editing");
        }
        if self.completed {
            class.append(" completed");
        }
        class
    }
}

impl Clone for Entry {
    fn clone(&self) -> (r: Entry)
        ensures
            r@ == self@,
    {
        Entry {
            description: self.description.clone(),
            completed: self.completed,
            editing: self.editing,
        }
    }
}

} // verus!
