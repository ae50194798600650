use todomvc::entry::Entry;
use todomvc::msg::Msg;
use todomvc::state::State;

fn entry(description: &str, completed: bool, editing: bool) -> Entry {
    Entry { description: description.to_string(), completed, editing }
}

fn state_of(entries: Vec<Entry>) -> State {
    State::restore(Some(entries))
}

fn add(state: &mut State, text: &str) {
    assert!(state.update(Msg::Update(text.to_string())));
    assert!(state.update(Msg::Add));
}

#[test]
fn add_buy_milk_gives_one_open_entry() {
    let mut state = State::restore(None);
    add(&mut state, "Buy milk");
    assert_eq!(state.entries().len(), 1);
    assert_eq!(state.entries()[0].description, "Buy milk");
    assert!(!state.entries()[0].completed);
    assert!(!state.entries()[0].editing);
    assert_eq!(state.value(), "");
}

#[test]
fn add_with_empty_input_appends_empty_entry() {
    let mut state = State::restore(None);
    assert!(state.update(Msg::Add));
    assert_eq!(state.entries(), &vec![entry("", false, false)]);
}

#[test]
fn toggle_flips_only_that_entry() {
    let mut state = state_of(vec![entry("a", false, false), entry("b", true, false), entry("c", false, false)]);
    state.update(Msg::Toggle(1));
    assert_eq!(
        state.entries(),
        &vec![entry("a", false, false), entry("b", false, false), entry("c", false, false)]
    );
    state.toggle(0);
    assert_eq!(
        state.entries(),
        &vec![entry("a", true, false), entry("b", false, false), entry("c", false, false)]
    );
}

#[test]
fn toggle_twice_restores_entry() {
    let mut state = state_of(vec![entry("a", false, false), entry("b", true, false)]);
    state.update(Msg::Toggle(1));
    state.update(Msg::Toggle(1));
    assert_eq!(state.entries(), &vec![entry("a", false, false), entry("b", true, false)]);
}

#[test]
fn remove_shifts_later_entries_down() {
    let mut state = state_of(vec![entry("a", false, false), entry("b", true, false), entry("c", false, false)]);
    state.update(Msg::Remove(1));
    assert_eq!(state.entries(), &vec![entry("a", false, false), entry("c", false, false)]);
    state.remove(1);
    assert_eq!(state.entries(), &vec![entry("a", false, false)]);
    state.remove(0);
    assert!(state.entries().is_empty());
}

#[test]
fn restore_stored_entries_round_trip() {
    let mut state = State::restore(None);
    add(&mut state, "x");
    add(&mut state, "y");
    state.update(Msg::Toggle(0));
    let stored: Vec<Entry> = state.entries().clone();
    let back = State::restore(Some(stored));
    assert_eq!(back.entries(), state.entries());
    assert_eq!(back.entries(), &vec![entry("x", true, false), entry("y", false, false)]);
    assert_eq!(back.value(), "");
    assert_eq!(back.edit_value(), "");
}

#[test]
fn restore_nothing_starts_empty() {
    let state = State::restore(None);
    assert!(state.entries().is_empty());
    assert_eq!(state.value(), "");
    assert_eq!(state.edit_value(), "");
}

#[test]
fn edit_seeds_buffer_and_commits() {
    let mut state = state_of(vec![entry("Milk", false, false), entry("Eggs", true, false)]);
    state.update(Msg::ToggleEdit(0));
    assert_eq!(state.edit_value(), "Milk");
    assert!(state.entries()[0].editing);
    state.update(Msg::UpdateEdit("Milk (2%)".to_string()));
    state.update(Msg::Edit(0));
    assert_eq!(
        state.entries(),
        &vec![entry("Milk (2%)", false, false), entry("Eggs", true, false)]
    );
    assert_eq!(state.edit_value(), "");
}

#[test]
fn edit_toggled_off_discards_buffer() {
    let mut state = state_of(vec![entry("Milk", false, false)]);
    state.update(Msg::ToggleEdit(0));
    state.update(Msg::UpdateEdit("Milk (2%)".to_string()));
    state.update(Msg::ToggleEdit(0));
    assert_eq!(state.entries(), &vec![entry("Milk", false, false)]);
    assert_eq!(state.edit_value(), "Milk");
}

#[test]
fn complete_edit_sets_text_and_flips_editing() {
    let mut state = state_of(vec![entry("a", false, true)]);
    state.complete_edit(0, "b".to_string());
    assert_eq!(state.entries(), &vec![entry("b", false, false)]);
    state.toggle_edit(0);
    assert_eq!(state.entries(), &vec![entry("b", false, true)]);
}

#[test]
fn add_toggle_remove_scenario() {
    let mut state = State::restore(Some(Vec::new()));
    add(&mut state, "A");
    add(&mut state, "B");
    state.update(Msg::Toggle(0));
    state.update(Msg::Remove(1));
    assert_eq!(state.entries(), &vec![entry("A", true, false)]);
    let stored: Vec<Entry> = state.entries().clone();
    assert_eq!(stored, vec![entry("A", true, false)]);
}

#[test]
fn nope_and_buffers_leave_entries_alone() {
    let mut state = state_of(vec![entry("a", true, false)]);
    assert!(state.update(Msg::Nope));
    state.update(Msg::Update("typed".to_string()));
    state.update(Msg::UpdateEdit("other".to_string()));
    assert_eq!(state.entries(), &vec![entry("a", true, false)]);
    assert_eq!(state.value(), "typed");
    assert_eq!(state.edit_value(), "other");
}

#[test]
fn accepts_checks_indices() {
    let state = state_of(vec![entry("a", false, false)]);
    assert!(state.accepts(&Msg::Toggle(0)));
    assert!(!state.accepts(&Msg::Toggle(1)));
    assert!(!state.accepts(&Msg::Remove(1)));
    assert!(!state.accepts(&Msg::Edit(5)));
    assert!(!state.accepts(&Msg::ToggleEdit(1)));
    assert!(state.accepts(&Msg::Add));
    assert!(state.accepts(&Msg::Nope));
}

#[test]
fn row_class_follows_flags() {
    assert_eq!(entry("a", false, false).class(), "todo");
    assert_eq!(entry("a", true, false).class(), "todo completed");
    assert_eq!(entry("a", false, true).class(), "todo editing");
    assert_eq!(entry("a", true, true).class(), "todo editing completed");
}

#[test]
fn enter_key_sends_message() {
    assert!(matches!(Msg::from_key("Enter", Msg::Add), Msg::Add));
    assert!(matches!(Msg::from_key("Enter", Msg::Edit(3)), Msg::Edit(3)));
    assert!(matches!(Msg::from_key("a", Msg::Add), Msg::Nope));
    assert!(matches!(Msg::from_key("enter", Msg::Add), Msg::Nope));
    assert!(matches!(Msg::from_key("", Msg::Add), Msg::Nope));
}

#[test]
fn new_entry_is_open() {
    assert_eq!(Entry::new("t".to_string()), entry("t", false, false));
}
