use vstd::prelude::*;

verus! {

/// What the user interface asks the list to do.
pub enum Msg {
    /// Append the text of the input field as a new entry.
    Add,
    /// Commit the edit buffer to the entry at the index and leave edit mode.
    Edit(usize),
    /// Set the text of the input field.
    Update(String),
    /// Set the edit buffer.
    UpdateEdit(String),
    /// Delete the entry at the index.
    Remove(usize),
    /// Seed the edit buffer from the entry at the index and flip its edit mode.
    ToggleEdit(usize),
    /// Flip whether the entry at the index is completed.
    Toggle(usize),
    /// Change nothing.
    Nope,
}

/// A message as plain values.
pub enum MsgView {
    Add,
    Edit(nat),
    Update(Seq<char>),
    UpdateEdit(Seq<char>),
    Remove(nat),
    ToggleEdit(nat),
    Toggle(nat),
    Nope,
}

impl View for Msg {
    type V = MsgView;

    open spec fn view(&self) -> MsgView {
        match self {
            Msg::Add => MsgView::Add,
            Msg::Edit(i) => MsgView::Edit(*i as nat),
            Msg::Update(t) => MsgView::Update(t@),
            Msg::UpdateEdit(t) => MsgView::UpdateEdit(t@),
            Msg::Remove(i) => MsgView::Remove(*i as nat),
            Msg::ToggleEdit(i) => MsgView::ToggleEdit(*i as nat),
            Msg::Toggle(i) => MsgView::Toggle(*i as nat),
            Msg::Nope => MsgView::Nope,
        }
    }
}

/// The message that a key press in a text field sends: `on_enter` for the
/// Enter key, nothing for any other key.
pub open spec fn key_msg(key: Seq<char>, on_enter: MsgView) -> MsgView {
    if key == "Enter"@ {
        on_enter
    } else {
        MsgView::Nope
    }
}

impl Msg {
    /// The message sent by a key press named `key`: `on_enter` if it is Enter,
    /// `Nope` otherwise.
    pub fn from_key(key: &str, on_enter: Msg) -> (r: Msg)
        ensures
            r@ == key_msg(key@, on_enter@),
    {
        let pressed = String::from_str(key);
        let enter = String::from_str("Enter");
        if pressed == enter {
            on_enter
        } else {
            Msg::Nope
        }
    }
}

} // verus!
