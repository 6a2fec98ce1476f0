//! The pure projection of the state into a plain page description. The UI
//! runtime turns this description into concrete UI elements; it reads state
//! only through this projection and writes it only through messages. The
//! list section is present exactly when the store is non-empty, with one row
//! per entry in identifier (creation) order, and the row of the entry under
//! edit carries an edit box instead of its label.

use vstd::prelude::*;

use crate::state::{SessionView, State};
use crate::store::{TodoId, TodoStore, TodoView};
use crate::state::EditSession;

verus! {

/// The header: a text input bound to the pending title (Enter creates a
/// todo) and the clear-all control.
pub struct Head {
    pub new_title: String,
}

/// The edit input shown in place of a row's label: pre-filled with the
/// session's working title and referenced by the session's focus handle, so
/// the deferred focus request can find it. Enter commits, Escape deselects,
/// blur commits.
pub struct EditBox {
    pub working_title: String,
    pub focus_handle: u64,
}

/// One list row: a checkbox bound to `complete`, a label with the title
/// (double-click enters edit mode), a remove control, and — only for the
/// entry under edit — the edit box.
pub struct Row {
    pub id: TodoId,
    pub title: String,
    pub complete: bool,
    pub edit: Option<EditBox>,
}

/// The todo list, rendered only when the store is non-empty.
pub struct ListSection {
    pub rows: Vec<Row>,
}

/// The whole rendered page.
pub struct Page {
    pub head: Head,
    pub list: Option<ListSection>,
}

/// How the session under edit is mirrored, as a value, by an optional
/// session reference.
pub open spec fn session_of(session: Option<&EditSession>) -> Option<SessionView> {
    match session {
        Some(s) => Some(s@),
        None => None,
    }
}

/// Whether `row` renders the entry `t` under the active session `session`:
/// same identifier, title and completion, and an edit box (holding the
/// session's working title and focus handle) exactly when the session
/// targets this entry.
pub open spec fn row_renders(row: Row, t: TodoView, session: Option<SessionView>) -> bool {
    &&& row.id == t.id
    &&& row.title@ == t.title
    &&& row.complete == t.complete
    &&& match session {
        Some(s) => if s.id == t.id {
            match row.edit {
                Some(e) => e.working_title@ == s.working_title && e.focus_handle == s.focus_handle,
                None => false,
            }
        } else {
            row.edit is None
        },
        None => row.edit is None,
    }
}

/// Renders the header for the given pending title.
pub fn render_head(new_title: &str) -> (h: Head)
    ensures
        h.new_title@ == new_title@,
{
    Head { new_title: String::from_str(new_title) }
}

/// Renders the todo list: one row per stored entry, in identifier
/// (creation) order, each rendered under the given session.
pub fn render_list(store: &TodoStore, session: Option<&EditSession>) -> (ls: ListSection)
    ensures
        ls.rows@.len() == store@.todos.len(),
        forall|i: int|
            0 <= i < ls.rows@.len() ==> row_renders(ls.rows@[i], store@.todos[i], session_of(session)),
{
    let n = store.len();
    let mut rows: Vec<Row> = Vec::new();
    let mut i: usize = 0;
    while i < n
        invariant
            0 <= i <= n,
            n == store@.todos.len(),
            rows@.len() == i,
            forall|k: int|
                0 <= k < i ==> row_renders(rows@[k], store@.todos[k], session_of(session)),
        decreases n - i,
    {
        let t = store.get_at(i);
        let edit: Option<EditBox> = match session {
            Some(s) => {
                if s.id == t.id {
                    Some(
                        EditBox {
                            working_title: s.working_title.clone(),
                            focus_handle: s.focus_handle,
                        },
                    )
                } else {
                    None
                }
            },
            None => None,
        };
        let row = Row { id: t.id, title: t.title.clone(), complete: t.complete, edit };
        rows.push(row);
        i = i + 1;
    }
    ListSection { rows }
}

/// Renders the whole page. The list section is omitted entirely when the
/// store holds no entry; otherwise it holds exactly one row per entry, in
/// identifier order.
pub fn render(state: &State) -> (p: Page)
    ensures
        p.head.new_title@ == state@.pending,
        (p.list is None) <==> state@.store.todos.len() == 0,
        match p.list {
            Some(ls) => ls.rows@.len() == state@.store.todos.len() && forall|i: int|
                0 <= i < ls.rows@.len() ==> row_renders(
                    ls.rows@[i],
                    state@.store.todos[i],
                    state@.session,
                ),
            None => true,
        },
{
    let head = render_head(state.pending_new_title.as_str());
    let list: Option<ListSection> = if state.store.is_empty() {
        None
    } else {
        Some(render_list(&state.store, state.session.as_ref()))
    };
    Page { head, list }
}

} // verus!
