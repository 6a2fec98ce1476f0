//! The application state and its transition function: the sole way the
//! state changes. A message describes one user intent; dispatch is total, so
//! every (state, message) pair yields a defined next state and at most one
//! requested side effect (deferred focus placement), and invalid targets
//! degrade to no-ops instead of errors.

use vstd::prelude::*;

use crate::store::{
    create_spec, has_id, idx_of, removed, renamed, store_wf, toggled, StoreView, TodoId,
    TodoStore, TodoView,
};
use crate::text::{caret_at_end, utf16_caret};

verus! {

/// The transient edit-mode state for exactly one todo: a detached copy of
/// the stored title at selection time (store mutations to the same entry do
/// not affect it), plus the handle of the input element the UI runtime must
/// focus after the next paint.
pub struct EditSession {
    pub id: TodoId,
    pub working_title: String,
    pub focus_handle: u64,
}

/// The mathematical value of an edit session.
#[verifier::ext_equal]
pub struct SessionView {
    pub id: TodoId,
    pub working_title: Seq<char>,
    pub focus_handle: u64,
}

impl View for EditSession {
    type V = SessionView;

    open spec fn view(&self) -> SessionView {
        SessionView {
            id: self.id,
            working_title: self.working_title@,
            focus_handle: self.focus_handle,
        }
    }
}

/// One user intent, the sole input to the transition function.
pub enum Msg {
    /// The creation input's text changed.
    SetNewTitle(String),
    /// Create a todo from the pending title (Enter in the creation input).
    CreateFromPending,
    /// Flip the `complete` flag of the given entry.
    ToggleComplete(TodoId),
    /// Delete the given entry.
    RemoveTodo(TodoId),
    /// Empty the store.
    ClearAll,
    /// Open an edit session for the given entry (double-click on its label).
    SelectForEdit(TodoId),
    /// Close the session without committing (Escape).
    Deselect,
    /// Replace the session's working title verbatim.
    ChangeWorkingTitle(String),
    /// Write the working title back to the store and close the session
    /// (Enter or blur in the edit input).
    CommitEdit,
}

/// The mathematical value of a message.
pub enum MsgView {
    SetNewTitle(Seq<char>),
    CreateFromPending,
    ToggleComplete(TodoId),
    RemoveTodo(TodoId),
    ClearAll,
    SelectForEdit(TodoId),
    Deselect,
    ChangeWorkingTitle(Seq<char>),
    CommitEdit,
}

impl View for Msg {
    type V = MsgView;

    open spec fn view(&self) -> MsgView {
        match self {
            Msg::SetNewTitle(t) => MsgView::SetNewTitle(t@),
            Msg::CreateFromPending => MsgView::CreateFromPending,
            Msg::ToggleComplete(id) => MsgView::ToggleComplete(*id),
            Msg::RemoveTodo(id) => MsgView::RemoveTodo(*id),
            Msg::ClearAll => MsgView::ClearAll,
            Msg::SelectForEdit(id) => MsgView::SelectForEdit(*id),
            Msg::Deselect => MsgView::Deselect,
            Msg::ChangeWorkingTitle(t) => MsgView::ChangeWorkingTitle(t@),
            Msg::CommitEdit => MsgView::CommitEdit,
        }
    }
}

/// The one side effect a transition can request: after the next paint, focus
/// the input element referenced by `handle` and place the caret at offset
/// `caret` (UTF-16 code units). The request is fire-and-forget: a stale or
/// unmounted target must be skipped silently by the runtime.
#[derive(Clone, Copy, PartialEq, Eq, Structural, Debug)]
pub struct FocusEffect {
    pub handle: u64,
    pub caret: u32,
}

/// The whole application state.
pub struct State {
    /// The text of the creation input, not yet validated or trimmed.
    pub pending_new_title: String,
    /// The todo collection.
    pub store: TodoStore,
    /// At most one active edit session.
    pub session: Option<EditSession>,
    /// The next focus handle to allocate; each session gets a fresh one.
    pub next_handle: u64,
}

/// The mathematical value of the whole state.
#[verifier::ext_equal]
pub struct StateView {
    pub pending: Seq<char>,
    pub store: StoreView,
    pub session: Option<SessionView>,
    pub next_handle: u64,
}

impl View for State {
    type V = StateView;

    open spec fn view(&self) -> StateView {
        StateView {
            pending: self.pending_new_title@,
            store: self.store@,
            session: match self.session {
                Some(s) => Some(s@),
                None => None,
            },
            next_handle: self.next_handle,
        }
    }
}

/// The state invariant: the store's entries are sorted by identifier and
/// bounded by its freshness watermark.
pub open spec fn state_wf(v: StateView) -> bool {
    store_wf(v.store)
}

/// The focus handle allocated after `h`, wrapping at the end of the range.
pub open spec fn next_handle_after(h: u64) -> u64 {
    if h < u64::MAX {
        (h + 1) as u64
    } else {
        0
    }
}

/// What one dispatch does: the next state and the requested side effect (if
/// any), as a function of the current state, the message, and the
/// identifier candidate drawn for a creation. This is the complete
/// specification of the transition function.
pub open spec fn step_spec(pre: StateView, msg: MsgView, candidate: u128) -> (
    StateView,
    Option<FocusEffect>,
) {
    match msg {
        MsgView::SetNewTitle(t) => (
            StateView {
                pending: t,
                store: pre.store,
                session: pre.session,
                next_handle: pre.next_handle,
            },
            None,
        ),
        MsgView::CreateFromPending => {
            let (store2, created) = create_spec(pre.store, pre.pending, candidate);
            match created {
                Some(_) => (
                    StateView {
                        pending: Seq::<char>::empty(),
                        store: store2,
                        session: pre.session,
                        next_handle: pre.next_handle,
                    },
                    None,
                ),
                None => (pre, None),
            }
        },
        MsgView::ToggleComplete(id) => (
            StateView {
                pending: pre.pending,
                store: StoreView { todos: toggled(pre.store.todos, id), last_id: pre.store.last_id },
                session: pre.session,
                next_handle: pre.next_handle,
            },
            None,
        ),
        MsgView::RemoveTodo(id) => (
            StateView {
                pending: pre.pending,
                store: StoreView { todos: removed(pre.store.todos, id), last_id: pre.store.last_id },
                session: pre.session,
                next_handle: pre.next_handle,
            },
            None,
        ),
        MsgView::ClearAll => (
            StateView {
                pending: pre.pending,
                store: StoreView { todos: Seq::<TodoView>::empty(), last_id: pre.store.last_id },
                session: None,
                next_handle: pre.next_handle,
            },
            None,
        ),
        MsgView::SelectForEdit(id) => {
            if has_id(pre.store.todos, id) {
                let title = pre.store.todos[idx_of(pre.store.todos, id)].title;
                (
                    StateView {
                        pending: pre.pending,
                        store: pre.store,
                        session: Some(
                            SessionView {
                                id,
                                working_title: title,
                                focus_handle: pre.next_handle,
                            },
                        ),
                        next_handle: next_handle_after(pre.next_handle),
                    },
                    Some(FocusEffect { handle: pre.next_handle, caret: caret_at_end(title) }),
                )
            } else {
                (pre, None)
            }
        },
        MsgView::Deselect => (
            StateView {
                pending: pre.pending,
                store: pre.store,
                session: None,
                next_handle: pre.next_handle,
            },
            None,
        ),
        MsgView::ChangeWorkingTitle(t) => match pre.session {
            Some(s) => (
                StateView {
                    pending: pre.pending,
                    store: pre.store,
                    session: Some(
                        SessionView {
                            id: s.id,
                            working_title: t,
                            focus_handle: s.focus_handle,
                        },
                    ),
                    next_handle: pre.next_handle,
                },
                None,
            ),
            None => (pre, None),
        },
        MsgView::CommitEdit => match pre.session {
            Some(s) => (
                StateView {
                    pending: pre.pending,
                    store: StoreView {
                        todos: renamed(pre.store.todos, s.id, s.working_title),
                        last_id: pre.store.last_id,
                    },
                    session: None,
                    next_handle: pre.next_handle,
                },
                None,
            ),
            None => (pre, None),
        },
    }
}

/// Only a creation reads the identifier candidate: for every other message
/// the dispatch outcome is the same whatever candidate was drawn.
pub proof fn lemma_step_candidate_irrelevant(pre: StateView, msg: MsgView, c1: u128, c2: u128)
    requires
        !(msg is CreateFromPending),
    ensures
        step_spec(pre, msg, c1) == step_spec(pre, msg, c2),
{
}

impl State {
    /// The state invariant.
    pub open spec fn wf(&self) -> bool {
        state_wf(self@)
    }

    /// The initial state: empty pending title, empty store, no session.
    pub fn new() -> (s: State)
        ensures
            s.wf(),
            s@.pending == Seq::<char>::empty(),
            s@.store.todos == Seq::<TodoView>::empty(),
            s@.store.last_id == 0,
            s@.session is None,
            s@.next_handle == 0,
    {
        State {
            pending_new_title: String::new(),
            store: TodoStore::new(),
            session: None,
            next_handle: 0,
        }
    }
}

impl Default for State {
    /// The initial state, equal to `State::new()`.
    fn default() -> (s: State)
        ensures
            s.wf(),
            s@.pending == Seq::<char>::empty(),
            s@.store.todos == Seq::<TodoView>::empty(),
            s@.store.last_id == 0,
            s@.session is None,
            s@.next_handle == 0,
    {
        State::new()
    }
}

/// One dispatch with the identifier candidate made explicit: the next state
/// and effect are exactly `step_spec` of the current state, the message and
/// the candidate. `candidate` matters only for `CreateFromPending`, where it
/// is the time-sortable token a fresh identifier is derived from.
pub fn step(state: &mut State, msg: Msg, candidate: u128) -> (eff: Option<FocusEffect>)
    requires
        old(state).wf(),
    ensures
        final(state).wf(),
        final(state)@ == step_spec(old(state)@, msg@, candidate).0,
        eff == step_spec(old(state)@, msg@, candidate).1,
{
    match msg {
        Msg::SetNewTitle(t) => {
            state.pending_new_title = t;
            None
        },
        Msg::CreateFromPending => {
            let created = state.store.create(state.pending_new_title.as_str(), candidate);
            match created {
                Some(_) => {
                    state.pending_new_title = String::new();
                },
                None => {},
            }
            None
        },
        Msg::ToggleComplete(id) => {
            state.store.toggle_complete(id);
            None
        },
        Msg::RemoveTodo(id) => {
            state.store.remove(id);
            None
        },
        Msg::ClearAll => {
            state.store.clear_all();
            state.session = None;
            None
        },
        Msg::SelectForEdit(id) => {
            let title: Option<String> = match state.store.get(id) {
                Some(t) => Some(t.title.clone()),
                None => None,
            };
            match title {
                Some(title) => {
                    let caret = utf16_caret(title.as_str());
                    let handle = state.next_handle;
                    state.session = Some(
                        EditSession { id, working_title: title, focus_handle: handle },
                    );
                    state.next_handle = if handle < u64::MAX {
                        handle + 1
                    } else {
                        0
                    };
                    Some(FocusEffect { handle, caret })
                },
                None => None,
            }
        },
        Msg::Deselect => {
            state.session = None;
            None
        },
        Msg::ChangeWorkingTitle(t) => {
            match &mut state.session {
                Some(s) => {
                    s.working_title = t;
                },
                None => {},
            }
            None
        },
        Msg::CommitEdit => {
            match state.session.take() {
                Some(s) => {
                    state.store.rename(s.id, s.working_title);
                },
                None => {},
            }
            None
        },
    }
}

/// The transition function: dispatches one message onto the state, drawing
/// the identifier candidate for a creation from the ULID generator. Since
/// nothing is assumed of the drawn value, the outcome is `step_spec` for
/// some candidate, whatever the generator returned.
pub fn transition(state: &mut State, msg: Msg) -> (eff: Option<FocusEffect>)
    requires
        old(state).wf(),
    ensures
        final(state).wf(),
        exists|c: u128|
            #![auto]
            final(state)@ == step_spec(old(state)@, msg@, c).0 && eff == step_spec(
                old(state)@,
                msg@,
                c,
            ).1,
        !(msg@ is CreateFromPending) ==> final(state)@ == step_spec(old(state)@, msg@, 0).0 && eff
            == step_spec(old(state)@, msg@, 0).1,
{
    let candidate = crate::ids::fresh_ulid_bits();
    let eff = step(state, msg, candidate);
    proof {
        if !(msg@ is CreateFromPending) {
            lemma_step_candidate_irrelevant(old(state)@, msg@, candidate, 0);
        }
    }
    eff
}

} // verus!
