use std::collections::HashMap;

use vstd::prelude::*;
use vstd::std_specs::hash::spec_values_iter;
use vstd::std_specs::iter::IteratorSpec;

use crate::error::{ErrorView, RepositoryError};
use crate::todo::{merged, CreateTodo, Todo, TodoView, UpdateTodo, UpdateView};

verus! {

/// The message of the failure of `create` once no id is left.
pub open spec fn ids_exhausted_message() -> Seq<char> {
    "no todo id is left"@
}

/// The id that `create` hands out: one more than the number of records.
pub open spec fn next_id(m: Map<i32, TodoView>) -> int {
    m.len() as int + 1
}

/// The record that `create` stores on `m` for a payload with `text`.
pub open spec fn created(m: Map<i32, TodoView>, text: Seq<char>) -> TodoView {
    TodoView { id: next_id(m) as i32, text, completed: false }
}

/// The records after a successful `create`.
pub open spec fn after_create(m: Map<i32, TodoView>, text: Seq<char>) -> Map<i32, TodoView> {
    m.insert(created(m, text).id, created(m, text))
}

/// The records after a successful `update` of the record under `id`.
pub open spec fn after_update(m: Map<i32, TodoView>, id: i32, u: UpdateView) -> Map<i32, TodoView> {
    m.insert(id, merged(m[id], u))
}

/// `s` holds each record of `m` once, in some order.
pub open spec fn lists_exactly(m: Map<i32, TodoView>, s: Seq<TodoView>) -> bool {
    &&& s.len() == m.len()
    &&& forall|i: int| 0 <= i < s.len() ==> #[trigger] m.contains_key(s[i].id) && m[s[i].id] == s[i]
    &&& forall|k: i32| #[trigger] m.contains_key(k) ==> s.contains(m[k])
}

/// Each record is stored under its own id, and there are finitely many.
pub open spec fn keyed_by_id(m: Map<i32, TodoView>) -> bool {
    &&& m.dom().finite()
    &&& forall|k: i32| #[trigger] m.contains_key(k) ==> m[k].id == k
}

/// The in-memory repository: a map from id to record.
///
/// `create` assigns the number of records plus one as the new id. After a
/// `delete` that id may already be taken, in which case `create` replaces the
/// record that holds it.
pub struct TodoStore {
    records: HashMap<i32, Todo>,
}

impl View for TodoStore {
    type V = Map<i32, TodoView>;

    closed spec fn view(&self) -> Map<i32, TodoView> {
        self.records@.map_values(|t: Todo| t@)
    }
}

impl TodoStore {
    pub open spec fn wf(&self) -> bool {
        keyed_by_id(self@)
    }

    /// An empty store.
    pub fn new() -> (r: TodoStore)
        ensures
            r.wf(),
            r@ == Map::<i32, TodoView>::empty(),
    {
        let r = TodoStore { records: HashMap::new() };
        assert(r@ =~= Map::<i32, TodoView>::empty());
        r
    }

    /// The number of records.
    pub fn len(&self) -> (r: usize)
        requires
            self.wf(),
        ensures
            r == self@.len(),
    {
        proof {
            assert(self.records@.dom() =~= self@.dom());
        }
        self.records.len()
    }

    /// Stores a new, not yet completed record with the payload's text under
    /// the id `len() + 1`. Fails only when that id does not fit in an `i32`.
    pub fn create(&mut self, payload: CreateTodo) -> (r: Result<Todo, RepositoryError>)
        requires
            old(self).wf(),
        ensures
            final(self).wf(),
            r is Ok <==> old(self)@.len() < i32::MAX,
            match r {
                Ok(t) => {
                    &&& t@ == created(old(self)@, payload.text@)
                    &&& final(self)@ == after_create(old(self)@, payload.text@)
                },
                Err(e) => {
                    &&& e@ == ErrorView::Unexpected(ids_exhausted_message())
                    &&& final(self)@ == old(self)@
                },
            },
    {
        let n = self.len();
        if n >= i32::MAX as usize {
            return Err(RepositoryError::Unexpected(String::from_str("no todo id is left")));
        }
        let id = (n + 1) as i32;
        let todo = Todo::new(id, payload.text);
        let stored = todo.duplicate();
        let ghost before = self.records@;
        self.records.insert(id, stored);
        proof {
            assert(self.records@ == before.insert(id, stored));
            assert(self@ =~= old(self)@.insert(id, todo@));
        }
        Ok(todo)
    }

    /// The record under `id`, or `NotFound(id)`.
    pub fn find(&self, id: i32) -> (r: Result<Todo, RepositoryError>)
        requires
            self.wf(),
        ensures
            r is Ok <==> self@.contains_key(id),
            match r {
                Ok(t) => t@ == self@[id],
                Err(e) => e@ == ErrorView::NotFound(id),
            },
    {
        match self.records.get(&id) {
            Some(t) => Ok(t.duplicate()),
            None => Err(RepositoryError::NotFound(id)),
        }
    }

    /// Every record, each once, in the map's iteration order.
    pub fn all(&self) -> (r: Vec<Todo>)
        requires
            self.wf(),
        ensures
            lists_exactly(self@, r@.map_values(|t: Todo| t@)),
    {
        let mut out: Vec<Todo> = Vec::new();
        let ghost s = spec_values_iter(&self.records).remaining().unref();
        for t in it: self.records.values()
            invariant
                self.wf(),
                it.seq().unref() == s,
                s.to_set() == self.records@.values(),
                s.len() == self.records@.dom().len(),
                out@.len() == it.index(),
                forall|i: int| 0 <= i < it.index() ==> #[trigger] out@[i]@ == s[i]@,
        {
            out.push(t.duplicate());
        }
        proof {
            assert(self.records@.dom() =~= self@.dom());
            assert forall|i: int| 0 <= i < out@.len() implies #[trigger] self@.contains_key(
                out@[i].id,
            ) && self@[out@[i].id] == out@[i]@ by {
                let v = s[i];
                assert(s.contains(v));
                assert(s.to_set().contains(v));
                assert(self.records@.values().contains(v));
                let k = choose|k: i32| self.records@.contains_key(k) && self.records@[k] == v;
                assert(self@.contains_key(k));
                assert(self@[k] == v@);
                assert(out@[i]@ == v@);
            }
            let views = out@.map_values(|t: Todo| t@);
            assert forall|k: i32| #[trigger] self@.contains_key(k) implies views.contains(
                self@[k],
            ) by {
                assert(self.records@.contains_key(k));
                assert(self.records@.values().contains(self.records@[k]));
                assert(s.to_set().contains(self.records@[k]));
                let i = choose|i: int| 0 <= i < s.len() && s[i] == self.records@[k];
                assert(views[i] == self@[k]);
            }
        }
        out
    }

    /// Lays the present fields of `payload` over the record under `id` and
    /// stores the result, or fails with `NotFound(id)`.
    pub fn update(&mut self, id: i32, payload: UpdateTodo) -> (r: Result<Todo, RepositoryError>)
        requires
            old(self).wf(),
        ensures
            final(self).wf(),
            r is Ok <==> old(self)@.contains_key(id),
            match r {
                Ok(t) => {
                    &&& t@ == merged(old(self)@[id], payload@)
                    &&& final(self)@ == after_update(old(self)@, id, payload@)
                },
                Err(e) => {
                    &&& e@ == ErrorView::NotFound(id)
                    &&& final(self)@ == old(self)@
                },
            },
    {
        let todo = match self.records.get(&id) {
            Some(old_todo) => payload.apply_to(old_todo),
            None => {
                return Err(RepositoryError::NotFound(id));
            },
        };
        let stored = todo.duplicate();
        let ghost before = self.records@;
        proof {
            assert(old(self)@.contains_key(id));
            assert(old(self)@[id].id == id);
        }
        self.records.insert(id, stored);
        proof {
            assert(self.records@ == before.insert(id, stored));
            assert(self@ =~= old(self)@.insert(id, todo@));
        }
        Ok(todo)
    }

    /// Removes the record under `id`, or fails with `NotFound(id)` and leaves
    /// the store as it was.
    pub fn delete(&mut self, id: i32) -> (r: Result<(), RepositoryError>)
        requires
            old(self).wf(),
        ensures
            final(self).wf(),
            r is Ok <==> old(self)@.contains_key(id),
            match r {
                Ok(_) => final(self)@ == old(self)@.remove(id),
                Err(e) => {
                    &&& e@ == ErrorView::NotFound(id)
                    &&& final(self)@ == old(self)@
                },
            },
    {
        let ghost before = self.records@;
        match self.records.remove(&id) {
            Some(_) => {
                proof {
                    assert(self.records@ == before.remove(id));
                    assert(self@ =~= old(self)@.remove(id));
                    assert(self@.dom().finite());
                    assert forall|k: i32| #[trigger] self@.contains_key(k) implies self@[k].id
                        == k by {
                        assert(old(self)@.contains_key(k));
                    }
                }
                Ok(())
            },
            None => {
                proof {
                    assert(self.records@ =~= before);
                }
                Err(RepositoryError::NotFound(id))
            },
        }
    }
}

} // verus!
