//! The todo store: an ordered mapping from unique, monotonically increasing
//! identifiers to todo records. It owns creation (with title trimming and
//! rejection of whitespace-only titles), completion toggling, removal, bulk
//! clearing and renaming. Iteration order is identifier order, which equals
//! creation order because every identifier handed out is strictly greater
//! than all identifiers generated before it.

use vstd::prelude::*;

use crate::text::trim_seq;

verus! {

/// Identifier of a todo entry: unique within a run and ordered by creation
/// time, so that sorting by identifier is sorting by creation order.
pub type TodoId = u128;

/// One stored todo entry.
pub struct Todo {
    pub id: TodoId,
    pub title: String,
    pub complete: bool,
}

/// The mathematical value of one todo entry.
#[verifier::ext_equal]
pub struct TodoView {
    pub id: TodoId,
    pub title: Seq<char>,
    pub complete: bool,
}

impl View for Todo {
    type V = TodoView;

    open spec fn view(&self) -> TodoView {
        TodoView { id: self.id, title: self.title@, complete: self.complete }
    }
}

/// The mathematical value of the store: the entries in iteration order, and
/// the greatest identifier generated so far (fresh identifiers must exceed
/// it, also after entries are removed or cleared).
#[verifier::ext_equal]
pub struct StoreView {
    pub todos: Seq<TodoView>,
    pub last_id: TodoId,
}

/// Whether some entry carries the identifier `id`.
pub open spec fn has_id(todos: Seq<TodoView>, id: TodoId) -> bool {
    exists|i: int| 0 <= i < todos.len() && todos[i].id == id
}

/// The position of the entry carrying `id` (meaningful when ids are unique).
pub open spec fn idx_of(todos: Seq<TodoView>, id: TodoId) -> int {
    choose|i: int| 0 <= i < todos.len() && todos[i].id == id
}

/// The entries with the `complete` flag of entry `id` flipped; entries with
/// other identifiers are untouched.
pub open spec fn toggled(todos: Seq<TodoView>, id: TodoId) -> Seq<TodoView> {
    Seq::new(
        todos.len(),
        |i: int|
            if todos[i].id == id {
                TodoView { id: todos[i].id, title: todos[i].title, complete: !todos[i].complete }
            } else {
                todos[i]
            },
    )
}

/// The entries with the title of entry `id` overwritten verbatim.
pub open spec fn renamed(todos: Seq<TodoView>, id: TodoId, title: Seq<char>) -> Seq<TodoView> {
    Seq::new(
        todos.len(),
        |i: int|
            if todos[i].id == id {
                TodoView { id: todos[i].id, title: title, complete: todos[i].complete }
            } else {
                todos[i]
            },
    )
}

/// The entries with entry `id` deleted; absent identifiers leave the
/// sequence unchanged.
pub open spec fn removed(todos: Seq<TodoView>, id: TodoId) -> Seq<TodoView> {
    if has_id(todos, id) {
        todos.remove(idx_of(todos, id))
    } else {
        todos
    }
}

/// Entries stand in strictly increasing identifier order (so identifiers are
/// unique and iteration order is creation order).
pub open spec fn sorted_by_id(todos: Seq<TodoView>) -> bool {
    forall|i: int, j: int| 0 <= i < j < todos.len() ==> todos[i].id < todos[j].id
}

/// The store invariant: entries sorted by identifier, and no identifier
/// exceeds the freshness watermark `last_id`.
pub open spec fn store_wf(v: StoreView) -> bool {
    &&& sorted_by_id(v.todos)
    &&& forall|i: int| 0 <= i < v.todos.len() ==> v.todos[i].id <= v.last_id
}

/// The fresh identifier generated from an externally supplied time-sortable
/// candidate: the candidate itself when it already exceeds every identifier
/// generated so far, the next integer otherwise. `None` only when the
/// identifier space is exhausted.
pub open spec fn fresh_id(last: TodoId, candidate: TodoId) -> Option<TodoId> {
    if candidate > last {
        Some(candidate)
    } else if last < TodoId::MAX {
        Some((last + 1) as TodoId)
    } else {
        None
    }
}

/// What `create` does to the store value: a whitespace-only title inserts
/// nothing; otherwise a fresh identifier is generated and the trimmed title
/// is appended as an incomplete entry.
pub open spec fn create_spec(v: StoreView, title: Seq<char>, candidate: TodoId) -> (
    StoreView,
    Option<TodoId>,
) {
    let t = trim_seq(title);
    if t.len() == 0 {
        (v, None)
    } else {
        match fresh_id(v.last_id, candidate) {
            Some(id) => (
                StoreView {
                    todos: v.todos.push(TodoView { id, title: t, complete: false }),
                    last_id: id,
                },
                Some(id),
            ),
            None => (v, None),
        }
    }
}

/// In a sorted sequence the entry at position `i` is the only one with its
/// identifier, so `idx_of` finds exactly that position.
pub proof fn lemma_idx_of_unique(todos: Seq<TodoView>, i: int)
    requires
        sorted_by_id(todos),
        0 <= i < todos.len(),
    ensures
        has_id(todos, todos[i].id),
        idx_of(todos, todos[i].id) == i,
{
    let id = todos[i].id;
    assert(has_id(todos, id));
    let j = idx_of(todos, id);
    assert(0 <= j < todos.len() && todos[j].id == id);
    if i < j {
        assert(todos[i].id < todos[j].id);
    } else if j < i {
        assert(todos[j].id < todos[i].id);
    }
}

/// Removing an identifier from a sorted sequence removes its only
/// occurrence: the identifier is gone afterwards.
pub proof fn lemma_removed_absent(todos: Seq<TodoView>, id: TodoId)
    requires
        sorted_by_id(todos),
    ensures
        !has_id(removed(todos, id), id),
{
    if has_id(todos, id) {
        let k = idx_of(todos, id);
        assert(0 <= k < todos.len() && todos[k].id == id);
        let r = todos.remove(k);
        assert forall|j: int| 0 <= j < r.len() implies r[j].id != id by {
            if j < k {
                assert(r[j] == todos[j]);
                lemma_idx_of_unique(todos, j);
            } else {
                assert(r[j] == todos[j + 1]);
                lemma_idx_of_unique(todos, j + 1);
            }
        }
    }
}

/// The ordered todo store.
pub struct TodoStore {
    entries: Vec<Todo>,
    last_id: TodoId,
}

impl View for TodoStore {
    type V = StoreView;

    closed spec fn view(&self) -> StoreView {
        StoreView {
            todos: Seq::new(self.entries@.len(), |i: int| self.entries@[i]@),
            last_id: self.last_id,
        }
    }
}

impl TodoStore {
    /// The store invariant, stated over the store's mathematical value.
    pub open spec fn wf(&self) -> bool {
        store_wf(self@)
    }

    /// An empty store whose identifier watermark starts at zero.
    pub fn new() -> (s: TodoStore)
        ensures
            s.wf(),
            s@.todos == Seq::<TodoView>::empty(),
            s@.last_id == 0,
    {
        let s = TodoStore { entries: Vec::new(), last_id: 0 };
        proof {
            assert(s@.todos =~= Seq::<TodoView>::empty());
        }
        s
    }

    /// How many entries the store holds.
    pub fn len(&self) -> (n: usize)
        ensures
            n == self@.todos.len(),
    {
        self.entries.len()
    }

    /// Whether the store holds no entry.
    pub fn is_empty(&self) -> (r: bool)
        ensures
            r == (self@.todos.len() == 0),
    {
        self.entries.len() == 0
    }

    /// The entry at position `i` in iteration (identifier) order.
    pub fn get_at(&self, i: usize) -> (t: &Todo)
        requires
            i < self@.todos.len(),
        ensures
            t@ == self@.todos[i as int],
    {
        &self.entries[i]
    }

    /// The position of the entry carrying `id`, if any.
    fn index_of(&self, id: TodoId) -> (r: Option<usize>)
        requires
            self.wf(),
        ensures
            match r {
                Some(i) => i < self@.todos.len() && self@.todos[i as int].id == id && idx_of(
                    self@.todos,
                    id,
                ) == i as int && has_id(self@.todos, id),
                None => !has_id(self@.todos, id),
            },
    {
        let n = self.entries.len();
        let mut i: usize = 0;
        while i < n
            invariant
                0 <= i <= n,
                n == self@.todos.len(),
                self.wf(),
                forall|k: int| 0 <= k < i ==> self@.todos[k].id != id,
            decreases n - i,
        {
            if self.entries[i].id == id {
                proof {
                    lemma_idx_of_unique(self@.todos, i as int);
                }
                return Some(i);
            }
            i = i + 1;
        }
        None
    }

    /// The entry carrying `id`, if any.
    pub fn get(&self, id: TodoId) -> (r: Option<&Todo>)
        requires
            self.wf(),
        ensures
            match r {
                Some(t) => has_id(self@.todos, id) && t@ == self@.todos[idx_of(self@.todos, id)]
                    && t@.id == id,
                None => !has_id(self@.todos, id),
            },
    {
        match self.index_of(id) {
            Some(i) => Some(&self.entries[i]),
            None => None,
        }
    }

    /// Creates a todo from `title`: trims it, rejects a whitespace-only
    /// result, and otherwise inserts the trimmed title as an incomplete
    /// entry under a fresh identifier ordered after every identifier
    /// generated before it. `candidate` is an externally generated
    /// time-sortable token; the store takes it when it is fresh and falls
    /// back to the next unused integer otherwise.
    pub fn create(&mut self, title: &str, candidate: TodoId) -> (r: Option<TodoId>)
        requires
            old(self).wf(),
        ensures
            final(self).wf(),
            final(self)@ == create_spec(old(self)@, title@, candidate).0,
            r == create_spec(old(self)@, title@, candidate).1,
    {
        let trimmed = crate::text::trim(title);
        if trimmed.as_str().is_empty() {
            return None;
        }
        let id: TodoId = if candidate > self.last_id {
            candidate
        } else if self.last_id < TodoId::MAX {
            self.last_id + 1
        } else {
            return None;
        };
        let ghost pre = self@;
        self.entries.push(Todo { id, title: trimmed, complete: false });
        self.last_id = id;
        proof {
            let t = trim_seq(title@);
            assert(self@.todos =~= pre.todos.push(TodoView { id, title: t, complete: false }));
            assert(self@ =~= create_spec(pre, title@, candidate).0);
            assert forall|i: int, j: int|
                0 <= i < j < self@.todos.len() implies self@.todos[i].id < self@.todos[j].id by {
                if j < self@.todos.len() - 1 {
                    assert(pre.todos[i].id < pre.todos[j].id);
                }
            }
        }
        Some(id)
    }

    /// Flips the `complete` flag of entry `id`; a no-op when the identifier
    /// is absent.
    pub fn toggle_complete(&mut self, id: TodoId)
        requires
            old(self).wf(),
        ensures
            final(self).wf(),
            final(self)@.todos == toggled(old(self)@.todos, id),
            final(self)@.last_id == old(self)@.last_id,
    {
        let ghost pre = self@;
        match self.index_of(id) {
            Some(i) => {
                let mut t = self.entries.remove(i);
                t.complete = !t.complete;
                self.entries.insert(i, t);
                proof {
                    assert forall|k: int| 0 <= k < pre.todos.len() implies self@.todos[k]
                        == toggled(pre.todos, id)[k] by {
                        lemma_idx_of_unique(pre.todos, i as int);
                        if k != i {
                            lemma_idx_of_unique(pre.todos, k);
                        }
                    }
                    assert(self@.todos =~= toggled(pre.todos, id));
                }
            },
            None => {
                proof {
                    assert(self@.todos =~= toggled(pre.todos, id));
                }
            },
        }
    }

    /// Overwrites the title of entry `id` verbatim (no trimming and no
    /// emptiness check; the commit-time policy lives with the caller); a
    /// no-op when the identifier is absent.
    pub fn rename(&mut self, id: TodoId, new_title: String)
        requires
            old(self).wf(),
        ensures
            final(self).wf(),
            final(self)@.todos == renamed(old(self)@.todos, id, new_title@),
            final(self)@.last_id == old(self)@.last_id,
    {
        let ghost pre = self@;
        match self.index_of(id) {
            Some(i) => {
                let mut t = self.entries.remove(i);
                t.title = new_title;
                self.entries.insert(i, t);
                proof {
                    assert forall|k: int| 0 <= k < pre.todos.len() implies self@.todos[k]
                        == renamed(pre.todos, id, new_title@)[k] by {
                        lemma_idx_of_unique(pre.todos, i as int);
                        if k != i {
                            lemma_idx_of_unique(pre.todos, k);
                        }
                    }
                    assert(self@.todos =~= renamed(pre.todos, id, new_title@));
                }
            },
            None => {
                proof {
                    assert(self@.todos =~= renamed(pre.todos, id, new_title@));
                }
            },
        }
    }

    /// Deletes entry `id` when present; removing an absent identifier is a
    /// no-op, not an error.
    pub fn remove(&mut self, id: TodoId)
        requires
            old(self).wf(),
        ensures
            final(self).wf(),
            final(self)@.todos == removed(old(self)@.todos, id),
            final(self)@.last_id == old(self)@.last_id,
    {
        let ghost pre = self@;
        match self.index_of(id) {
            Some(i) => {
                self.entries.remove(i);
                proof {
                    assert(self@.todos =~= pre.todos.remove(i as int));
                    assert(self@.todos =~= removed(pre.todos, id));
                    assert forall|a: int, b: int|
                        0 <= a < b < self@.todos.len() implies self@.todos[a].id
                        < self@.todos[b].id by {
                        if a < i {
                            assert(self@.todos[a] == pre.todos[a]);
                        } else {
                            assert(self@.todos[a] == pre.todos[a + 1]);
                        }
                        if b < i {
                            assert(self@.todos[b] == pre.todos[b]);
                        } else {
                            assert(self@.todos[b] == pre.todos[b + 1]);
                        }
                    }
                }
            },
            None => {
                proof {
                    assert(self@.todos =~= removed(pre.todos, id));
                }
            },
        }
    }

    /// Empties the store unconditionally. The identifier watermark is kept,
    /// so identifiers generated later still exceed all earlier ones.
    pub fn clear_all(&mut self)
        requires
            old(self).wf(),
        ensures
            final(self).wf(),
            final(self)@.todos == Seq::<TodoView>::empty(),
            final(self)@.last_id == old(self)@.last_id,
    {
        self.entries.clear();
        proof {
            assert(self@.todos =~= Seq::<TodoView>::empty());
        }
    }
}

impl Default for TodoStore {
    /// An empty store, equal to `TodoStore::new()`.
    fn default() -> (s: TodoStore)
        ensures
            s.wf(),
            s@.todos == Seq::<TodoView>::empty(),
            s@.last_id == 0,
    {
        TodoStore::new()
    }
}

} // verus!
