//! Laws of the transition function, stated and proved over `step_spec`, the
//! specification that `step` and `transition` are verified against: the
//! state invariant is preserved by every dispatch, whitespace-only creation
//! changes nothing, successive creations are distinct and ordered, toggling
//! is an involution, removal is idempotent, selection copies the stored
//! title, and clearing never leaves a dangling session.

use vstd::prelude::*;

use crate::state::{next_handle_after, state_wf, step_spec, MsgView, SessionView, StateView};
use crate::state::FocusEffect;
use crate::store::{
    fresh_id, has_id, idx_of, lemma_removed_absent, removed, toggled, TodoId, TodoView,
};
use crate::text::{caret_at_end, trim_seq};

verus! {

/// Law: every dispatch preserves the state invariant, whatever the message
/// and whatever identifier candidate was drawn.
pub proof fn lemma_step_preserves_wf(s: StateView, m: MsgView, c: u128)
    requires
        state_wf(s),
    ensures
        state_wf(step_spec(s, m, c).0),
{
    let post = step_spec(s, m, c).0;
    match m {
        MsgView::CreateFromPending => {
            let t = trim_seq(s.pending);
            if t.len() > 0 {
                match fresh_id(s.store.last_id, c) {
                    Some(id) => {
                        assert forall|i: int, j: int|
                            0 <= i < j < post.store.todos.len() implies post.store.todos[i].id
                            < post.store.todos[j].id by {
                            if j < post.store.todos.len() - 1 {
                                assert(s.store.todos[i].id < s.store.todos[j].id);
                            } else {
                                assert(s.store.todos[i].id <= s.store.last_id);
                            }
                        }
                        assert forall|i: int|
                            0 <= i < post.store.todos.len() implies post.store.todos[i].id
                            <= post.store.last_id by {
                            if i < post.store.todos.len() - 1 {
                                assert(s.store.todos[i].id <= s.store.last_id);
                            }
                        }
                    },
                    None => {},
                }
            }
        },
        MsgView::ToggleComplete(id) => {
            assert forall|i: int, j: int|
                0 <= i < j < post.store.todos.len() implies post.store.todos[i].id
                < post.store.todos[j].id by {
                assert(post.store.todos[i].id == s.store.todos[i].id);
                assert(post.store.todos[j].id == s.store.todos[j].id);
            }
            assert forall|i: int|
                0 <= i < post.store.todos.len() implies post.store.todos[i].id
                <= post.store.last_id by {
                assert(post.store.todos[i].id == s.store.todos[i].id);
            }
        },
        MsgView::RemoveTodo(id) => {
            let pre = s.store.todos;
            if has_id(pre, id) {
                let k = idx_of(pre, id);
                assert forall|i: int, j: int|
                    0 <= i < j < post.store.todos.len() implies post.store.todos[i].id
                    < post.store.todos[j].id by {
                    if i < k {
                        assert(post.store.todos[i] == pre[i]);
                    } else {
                        assert(post.store.todos[i] == pre[i + 1]);
                    }
                    if j < k {
                        assert(post.store.todos[j] == pre[j]);
                    } else {
                        assert(post.store.todos[j] == pre[j + 1]);
                    }
                }
                assert forall|i: int|
                    0 <= i < post.store.todos.len() implies post.store.todos[i].id
                    <= post.store.last_id by {
                    if i < k {
                        assert(post.store.todos[i] == pre[i]);
                    } else {
                        assert(post.store.todos[i] == pre[i + 1]);
                    }
                }
            }
        },
        MsgView::CommitEdit => {
            match s.session {
                Some(sess) => {
                    assert forall|i: int, j: int|
                        0 <= i < j < post.store.todos.len() implies post.store.todos[i].id
                        < post.store.todos[j].id by {
                        assert(post.store.todos[i].id == s.store.todos[i].id);
                        assert(post.store.todos[j].id == s.store.todos[j].id);
                    }
                    assert forall|i: int|
                        0 <= i < post.store.todos.len() implies post.store.todos[i].id
                        <= post.store.last_id by {
                        assert(post.store.todos[i].id == s.store.todos[i].id);
                    }
                },
                None => {},
            }
        },
        _ => {},
    }
}

/// Law: creating from a whitespace-only pending title changes nothing — no
/// entry is added, the pending title is kept, and no effect is requested.
pub proof fn lemma_create_whitespace_only_noop(s: StateView, c: u128)
    requires
        trim_seq(s.pending).len() == 0,
    ensures
        step_spec(s, MsgView::CreateFromPending, c).0 == s,
        step_spec(s, MsgView::CreateFromPending, c).1 is None,
{
}

/// Law: two successive creations insert two entries with distinct, ordered
/// identifiers; earlier entries are untouched, and iterating the store
/// yields the two new entries in creation order, after all earlier ones.
/// (The bounds on `last_id` and the first candidate only keep the
/// 128-bit identifier space from being exhausted mid-sequence.)
pub proof fn lemma_creations_ordered(
    s0: StateView,
    t1: Seq<char>,
    t2: Seq<char>,
    c1: u128,
    c2: u128,
)
    requires
        state_wf(s0),
        trim_seq(t1).len() > 0,
        trim_seq(t2).len() > 0,
        s0.store.last_id < u128::MAX - 1,
        c1 < u128::MAX,
    ensures
        ({
            let s1 = step_spec(s0, MsgView::SetNewTitle(t1), c1).0;
            let s2 = step_spec(s1, MsgView::CreateFromPending, c1).0;
            let s3 = step_spec(s2, MsgView::SetNewTitle(t2), c2).0;
            let s4 = step_spec(s3, MsgView::CreateFromPending, c2).0;
            let n = s0.store.todos.len() as int;
            &&& s4.store.todos.len() == n + 2
            &&& forall|i: int| 0 <= i < n ==> s4.store.todos[i] == s0.store.todos[i]
            &&& s4.store.todos[n].id != s4.store.todos[n + 1].id
            &&& s4.store.todos[n].id < s4.store.todos[n + 1].id
            &&& s4.store.todos[n].title == trim_seq(t1)
            &&& s4.store.todos[n + 1].title == trim_seq(t2)
            &&& state_wf(s4)
        }),
{
    let s1 = step_spec(s0, MsgView::SetNewTitle(t1), c1).0;
    lemma_step_preserves_wf(s0, MsgView::SetNewTitle(t1), c1);
    let s2 = step_spec(s1, MsgView::CreateFromPending, c1).0;
    lemma_step_preserves_wf(s1, MsgView::CreateFromPending, c1);
    let s3 = step_spec(s2, MsgView::SetNewTitle(t2), c2).0;
    lemma_step_preserves_wf(s2, MsgView::SetNewTitle(t2), c2);
    let s4 = step_spec(s3, MsgView::CreateFromPending, c2).0;
    lemma_step_preserves_wf(s3, MsgView::CreateFromPending, c2);
}

/// Law: toggling the same identifier twice returns the whole state to its
/// original value (`ToggleComplete` is an involution).
pub proof fn lemma_toggle_involution(s: StateView, id: TodoId, c1: u128, c2: u128)
    ensures
        step_spec(step_spec(s, MsgView::ToggleComplete(id), c1).0, MsgView::ToggleComplete(id), c2).0
            == s,
{
    let s1 = step_spec(s, MsgView::ToggleComplete(id), c1).0;
    let s2 = step_spec(s1, MsgView::ToggleComplete(id), c2).0;
    assert forall|i: int| 0 <= i < s.store.todos.len() implies s2.store.todos[i]
        == s.store.todos[i] by {
        assert(toggled(s.store.todos, id)[i].id == s.store.todos[i].id);
    }
    assert(s2.store.todos =~= s.store.todos);
    assert(s2 =~~= s);
}

/// Law: removing the same identifier twice is idempotent — the second
/// removal changes nothing.
pub proof fn lemma_remove_idempotent(s: StateView, id: TodoId, c1: u128, c2: u128)
    requires
        state_wf(s),
    ensures
        ({
            let s1 = step_spec(s, MsgView::RemoveTodo(id), c1).0;
            step_spec(s1, MsgView::RemoveTodo(id), c2).0 == s1
        }),
{
    let s1 = step_spec(s, MsgView::RemoveTodo(id), c1).0;
    let s2 = step_spec(s1, MsgView::RemoveTodo(id), c2).0;
    lemma_removed_absent(s.store.todos, id);
    assert(s1.store.todos == removed(s.store.todos, id));
    assert(removed(s1.store.todos, id) == s1.store.todos);
    assert(s2 =~~= s1);
}

/// Law: selecting an existing entry opens an editing session whose working
/// title equals the then-current stored title, allocates a fresh focus
/// handle, and requests focus with the caret at the end of that title;
/// selecting an absent identifier changes nothing and requests nothing.
pub proof fn lemma_select_for_edit(s: StateView, id: TodoId, c: u128)
    requires
        state_wf(s),
    ensures
        has_id(s.store.todos, id) ==> ({
            let title = s.store.todos[idx_of(s.store.todos, id)].title;
            let (post, eff) = step_spec(s, MsgView::SelectForEdit(id), c);
            &&& post.session == Some(
                SessionView { id, working_title: title, focus_handle: s.next_handle },
            )
            &&& post.store == s.store
            &&& post.pending == s.pending
            &&& post.next_handle == next_handle_after(s.next_handle)
            &&& eff == Some(FocusEffect { handle: s.next_handle, caret: caret_at_end(title) })
        }),
        !has_id(s.store.todos, id) ==> step_spec(s, MsgView::SelectForEdit(id), c).0 == s
            && step_spec(s, MsgView::SelectForEdit(id), c).1 is None,
{
}

/// Law: the only dispatch that requests a side effect is the selection of
/// an existing entry for edit; every other dispatch requests nothing.
pub proof fn lemma_effect_only_on_select(s: StateView, m: MsgView, c: u128)
    ensures
        step_spec(s, m, c).1 is Some <==> (m matches MsgView::SelectForEdit(id) && has_id(
            s.store.todos,
            id,
        )),
{
}

/// Law: `ClearAll` empties the store and always leaves the session closed,
/// so no session can dangle into an empty store.
pub proof fn lemma_clear_all_closes_session(s: StateView, c: u128)
    ensures
        step_spec(s, MsgView::ClearAll, c).0.session is None,
        step_spec(s, MsgView::ClearAll, c).0.store.todos == Seq::<TodoView>::empty(),
        step_spec(s, MsgView::ClearAll, c).0.pending == s.pending,
        step_spec(s, MsgView::ClearAll, c).1 is None,
{
}

} // verus!
