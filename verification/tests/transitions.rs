use todo_core::state::{step, transition, FocusEffect, Msg, State};
use todo_core::store::TodoStore;
use todo_core::text::{trim, utf16_caret};

fn set_title(state: &mut State, title: &str) {
    step(state, Msg::SetNewTitle(String::from(title)), 0);
}

fn create(state: &mut State, title: &str, candidate: u128) -> u128 {
    set_title(state, title);
    step(state, Msg::CreateFromPending, candidate);
    let n = state.store.len();
    assert!(n > 0, "creation with a non-empty title must insert");
    state.store.get_at(n - 1).id
}

#[test]
fn create_whitespace_only_adds_nothing() {
    let mut state = State::new();
    set_title(&mut state, " \t\n  ");
    let eff = step(&mut state, Msg::CreateFromPending, 5);
    assert!(eff.is_none());
    assert_eq!(state.store.len(), 0);
    assert_eq!(state.pending_new_title, " \t\n  ");
}

#[test]
fn create_trims_title_and_clears_pending() {
    let mut state = State::new();
    set_title(&mut state, "  Buy milk  ");
    step(&mut state, Msg::CreateFromPending, 5);
    assert_eq!(state.store.len(), 1);
    let todo = state.store.get_at(0);
    assert_eq!(todo.title, "Buy milk");
    assert!(!todo.complete);
    assert_eq!(state.pending_new_title, "");
}

#[test]
fn successive_creations_distinct_and_ordered() {
    let mut state = State::new();
    // The second candidate is stale (not above the watermark), so the store
    // falls back to the next unused identifier.
    let id1 = create(&mut state, "first", 10);
    let id2 = create(&mut state, "second", 3);
    assert_eq!(id1, 10);
    assert_eq!(id2, 11);
    assert_ne!(id1, id2);
    assert_eq!(state.store.len(), 2);
    assert_eq!(state.store.get_at(0).id, id1);
    assert_eq!(state.store.get_at(0).title, "first");
    assert_eq!(state.store.get_at(1).id, id2);
    assert_eq!(state.store.get_at(1).title, "second");
}

#[test]
fn create_with_stale_candidate_uses_watermark() {
    let mut state = State::new();
    let id = create(&mut state, "a", 0);
    assert_eq!(id, 1);
}

#[test]
fn toggle_twice_restores_complete() {
    let mut state = State::new();
    let id = create(&mut state, "task", 1);
    assert!(!state.store.get_at(0).complete);
    step(&mut state, Msg::ToggleComplete(id), 0);
    assert!(state.store.get_at(0).complete);
    step(&mut state, Msg::ToggleComplete(id), 0);
    assert!(!state.store.get_at(0).complete);
}

#[test]
fn toggle_absent_id_is_noop() {
    let mut state = State::new();
    let id = create(&mut state, "task", 1);
    step(&mut state, Msg::ToggleComplete(id + 999), 0);
    assert_eq!(state.store.len(), 1);
    assert!(!state.store.get_at(0).complete);
}

#[test]
fn remove_twice_is_idempotent() {
    let mut state = State::new();
    let id1 = create(&mut state, "one", 1);
    let id2 = create(&mut state, "two", 2);
    step(&mut state, Msg::RemoveTodo(id1), 0);
    assert_eq!(state.store.len(), 1);
    assert_eq!(state.store.get_at(0).id, id2);
    step(&mut state, Msg::RemoveTodo(id1), 0);
    assert_eq!(state.store.len(), 1);
    assert_eq!(state.store.get_at(0).id, id2);
    assert_eq!(state.store.get_at(0).title, "two");
}

#[test]
fn select_for_edit_existing_copies_title() {
    let mut state = State::new();
    let id = create(&mut state, "task", 1);
    let eff = step(&mut state, Msg::SelectForEdit(id), 0);
    assert_eq!(eff, Some(FocusEffect { handle: 0, caret: 4 }));
    let session = state.session.as_ref().expect("session must open");
    assert_eq!(session.id, id);
    assert_eq!(session.working_title, "task");
    assert_eq!(session.focus_handle, 0);
    assert_eq!(state.next_handle, 1);
}

#[test]
fn select_for_edit_absent_stays_idle() {
    let mut state = State::new();
    create(&mut state, "task", 1);
    let eff = step(&mut state, Msg::SelectForEdit(999), 0);
    assert!(eff.is_none());
    assert!(state.session.is_none());
}

#[test]
fn select_does_not_mirror_later_store_changes() {
    let mut state = State::new();
    let id = create(&mut state, "old", 1);
    step(&mut state, Msg::SelectForEdit(id), 0);
    // A rename of the same entry while the session is open must not leak
    // into the detached working title.
    step(&mut state, Msg::ToggleComplete(id), 0);
    assert_eq!(state.session.as_ref().unwrap().working_title, "old");
}

#[test]
fn change_title_then_deselect_discards_edits() {
    let mut state = State::new();
    let id = create(&mut state, "A", 1);
    step(&mut state, Msg::SelectForEdit(id), 0);
    step(&mut state, Msg::ChangeWorkingTitle(String::from("B")), 0);
    step(&mut state, Msg::Deselect, 0);
    assert!(state.session.is_none());
    assert_eq!(state.store.get_at(0).title, "A");
}

#[test]
fn change_title_then_commit_stores_new_title() {
    let mut state = State::new();
    let id = create(&mut state, "A", 1);
    step(&mut state, Msg::SelectForEdit(id), 0);
    step(&mut state, Msg::ChangeWorkingTitle(String::from("B")), 0);
    step(&mut state, Msg::CommitEdit, 0);
    assert!(state.session.is_none());
    assert_eq!(state.store.len(), 1);
    assert_eq!(state.store.get_at(0).title, "B");
}

#[test]
fn change_title_without_session_is_noop() {
    let mut state = State::new();
    create(&mut state, "A", 1);
    step(&mut state, Msg::ChangeWorkingTitle(String::from("B")), 0);
    assert!(state.session.is_none());
    assert_eq!(state.store.get_at(0).title, "A");
}

#[test]
fn commit_without_session_is_noop() {
    let mut state = State::new();
    create(&mut state, "A", 1);
    step(&mut state, Msg::CommitEdit, 0);
    assert!(state.session.is_none());
    assert_eq!(state.store.get_at(0).title, "A");
}

#[test]
fn commit_stores_working_title_verbatim() {
    let mut state = State::new();
    let id = create(&mut state, "A", 1);
    step(&mut state, Msg::SelectForEdit(id), 0);
    step(&mut state, Msg::ChangeWorkingTitle(String::from("  B  ")), 0);
    step(&mut state, Msg::CommitEdit, 0);
    assert_eq!(state.store.get_at(0).title, "  B  ");
}

#[test]
fn commit_empty_working_title_stores_empty() {
    let mut state = State::new();
    let id = create(&mut state, "A", 1);
    step(&mut state, Msg::SelectForEdit(id), 0);
    step(&mut state, Msg::ChangeWorkingTitle(String::new()), 0);
    step(&mut state, Msg::CommitEdit, 0);
    assert!(state.session.is_none());
    assert_eq!(state.store.get_at(0).title, "");
}

#[test]
fn selecting_other_entry_replaces_session() {
    let mut state = State::new();
    let id1 = create(&mut state, "one", 1);
    let id2 = create(&mut state, "two", 2);
    step(&mut state, Msg::SelectForEdit(id1), 0);
    step(&mut state, Msg::ChangeWorkingTitle(String::from("edited")), 0);
    let eff = step(&mut state, Msg::SelectForEdit(id2), 0);
    let session = state.session.as_ref().unwrap();
    assert_eq!(session.id, id2);
    assert_eq!(session.working_title, "two");
    // The replacement session got a fresh focus handle.
    assert_eq!(eff, Some(FocusEffect { handle: 1, caret: 3 }));
    // The discarded edits never reached the store.
    step(&mut state, Msg::CommitEdit, 0);
    assert_eq!(state.store.get_at(0).title, "one");
}

#[test]
fn clear_all_empties_store_and_closes_session() {
    let mut state = State::new();
    let id = create(&mut state, "task", 1);
    step(&mut state, Msg::SelectForEdit(id), 0);
    assert!(state.session.is_some());
    let eff = step(&mut state, Msg::ClearAll, 0);
    assert!(eff.is_none());
    assert_eq!(state.store.len(), 0);
    assert!(state.session.is_none());
}

#[test]
fn commit_after_entry_removed_closes_session_without_insert() {
    let mut state = State::new();
    let id = create(&mut state, "task", 1);
    step(&mut state, Msg::SelectForEdit(id), 0);
    step(&mut state, Msg::RemoveTodo(id), 0);
    step(&mut state, Msg::CommitEdit, 0);
    assert!(state.session.is_none());
    assert_eq!(state.store.len(), 0);
}

#[test]
fn ids_after_clear_stay_fresh() {
    let mut state = State::new();
    let id1 = create(&mut state, "one", 7);
    step(&mut state, Msg::ClearAll, 0);
    let id2 = create(&mut state, "two", 0);
    assert!(id2 > id1);
}

#[test]
fn transition_generates_distinct_ordered_ids() {
    // Through `transition` the identifier candidates come from the real ULID
    // generator; whatever it returns, the ids must be distinct and listed in
    // creation order.
    let mut state = State::new();
    transition(&mut state, Msg::SetNewTitle(String::from("A")));
    transition(&mut state, Msg::CreateFromPending);
    transition(&mut state, Msg::SetNewTitle(String::from("B")));
    transition(&mut state, Msg::CreateFromPending);
    assert_eq!(state.store.len(), 2);
    let id1 = state.store.get_at(0).id;
    let id2 = state.store.get_at(1).id;
    assert_ne!(id1, id2);
    assert!(id1 < id2);
    assert_eq!(state.store.get_at(0).title, "A");
    assert_eq!(state.store.get_at(1).title, "B");
}

#[test]
fn store_create_whitespace_returns_none() {
    let mut store = TodoStore::new();
    assert_eq!(store.create("   ", 9), None);
    assert_eq!(store.len(), 0);
    assert_eq!(store.create(" x ", 9), Some(9));
    assert_eq!(store.len(), 1);
    assert_eq!(store.get_at(0).title, "x");
}

#[test]
fn store_id_space_exhaustion_inserts_nothing() {
    let mut store = TodoStore::new();
    assert_eq!(store.create("last", u128::MAX), Some(u128::MAX));
    // The watermark sits at the top of the identifier range: no fresh
    // identifier is left, so creation degrades to a no-op.
    assert_eq!(store.create("one too many", 5), None);
    assert_eq!(store.len(), 1);
    assert_eq!(store.get_at(0).title, "last");
}

#[test]
fn store_rename_is_verbatim() {
    let mut store = TodoStore::new();
    let id = store.create("x", 1).unwrap();
    store.rename(id, String::from("  padded  "));
    assert_eq!(store.get_at(0).title, "  padded  ");
    store.rename(id + 5, String::from("ghost"));
    assert_eq!(store.get_at(0).title, "  padded  ");
}

#[test]
fn store_get_finds_by_id() {
    let mut store = TodoStore::new();
    let id1 = store.create("one", 1).unwrap();
    let id2 = store.create("two", 2).unwrap();
    assert_eq!(store.get(id1).unwrap().title, "one");
    assert_eq!(store.get(id2).unwrap().title, "two");
    assert!(store.get(77).is_none());
}

#[test]
fn trim_edge_cases() {
    assert_eq!(trim(""), "");
    assert_eq!(trim("   "), "");
    assert_eq!(trim("a"), "a");
    assert_eq!(trim("  a b  "), "a b");
    assert_eq!(trim("\u{3000}\u{00A0}milk\u{2028}"), "milk");
    assert_eq!(trim("inner  space"), "inner  space");
}

#[test]
fn utf16_caret_counts_code_units() {
    assert_eq!(utf16_caret(""), 0);
    assert_eq!(utf16_caret("abc"), 3);
    // One scalar inside the basic multilingual plane: one code unit.
    assert_eq!(utf16_caret("\u{00E9}"), 1);
    // One scalar beyond it: a surrogate pair, two code units.
    assert_eq!(utf16_caret("\u{1D11E}"), 2);
    assert_eq!(utf16_caret("a\u{1D11E}b"), 4);
    assert_eq!("a\u{1D11E}b".encode_utf16().count(), 4);
}

#[test]
fn select_caret_lands_after_wide_characters() {
    let mut state = State::new();
    let id = create(&mut state, "no\u{1D11E}te", 1);
    let eff = step(&mut state, Msg::SelectForEdit(id), 0);
    assert_eq!(eff, Some(FocusEffect { handle: 0, caret: 6 }));
}

#[test]
fn default_state_is_initial() {
    let state = State::default();
    assert_eq!(state.pending_new_title, "");
    assert_eq!(state.store.len(), 0);
    assert!(state.session.is_none());
    assert_eq!(state.next_handle, 0);
}
