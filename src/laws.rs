//! Laws of the in-memory repository, stated over the transitions that the
//! contracts of `TodoStore` use.

use vstd::prelude::*;

use crate::store::{after_create, after_update, created, keyed_by_id, lists_exactly, next_id};
use crate::todo::{merged, TodoView, UpdateView};

verus! {

/// The ids of `m` are exactly 1 to `m.len()`: the shape of a store on which
/// only `create` has run.
pub open spec fn ids_from_one(m: Map<i32, TodoView>) -> bool {
    forall|k: i32| #[trigger] m.contains_key(k) <==> 1 <= k <= m.len()
}

/// `create` stores a record that is not completed, holds the payload's text,
/// and has an id that no record held before, whenever the store holds no
/// record under its size plus one. It adds that record and changes no other.
pub proof fn create_assigns_fresh_id(m: Map<i32, TodoView>, text: Seq<char>)
    requires
        keyed_by_id(m),
        m.len() < i32::MAX,
        !m.contains_key(next_id(m) as i32),
    ensures
        created(m, text).completed == false,
        created(m, text).text == text,
        !m.contains_key(created(m, text).id),
        after_create(m, text).len() == m.len() + 1,
        forall|k: i32| #[trigger]
            m.contains_key(k) ==> after_create(m, text).contains_key(k) && after_create(m, text)[k]
                == m[k],
{
}

/// On a store whose ids run from 1 to its size, the next id is free, and
/// after `create` the ids again run from 1 to the new size.
pub proof fn create_keeps_ids_from_one(m: Map<i32, TodoView>, text: Seq<char>)
    requires
        keyed_by_id(m),
        ids_from_one(m),
        m.len() < i32::MAX,
    ensures
        !m.contains_key(next_id(m) as i32),
        ids_from_one(after_create(m, text)),
{
    assert(after_create(m, text).len() == m.len() + 1);
}

/// After `create`, the created record is found under its id; an id that was
/// absent before and is not the new one is still absent.
pub proof fn find_after_create(m: Map<i32, TodoView>, text: Seq<char>)
    requires
        keyed_by_id(m),
        m.len() < i32::MAX,
    ensures
        after_create(m, text).contains_key(created(m, text).id),
        after_create(m, text)[created(m, text).id] == created(m, text),
        forall|id: i32|
            !m.contains_key(id) && id != created(m, text).id ==> !#[trigger] after_create(
                m,
                text,
            ).contains_key(id),
{
}

/// An update that carries only a text replaces the text and keeps the
/// completion flag; no other record changes.
pub proof fn update_text_keeps_completed(m: Map<i32, TodoView>, id: i32, text: Seq<char>)
    requires
        keyed_by_id(m),
        m.contains_key(id),
    ensures
        ({
            let u = UpdateView { text: Some(text), completed: None };
            &&& merged(m[id], u) == TodoView { id, text, completed: m[id].completed }
            &&& after_update(m, id, u)[id] == merged(m[id], u)
            &&& after_update(m, id, u).dom() == m.dom()
            &&& forall|k: i32| #[trigger]
                m.contains_key(k) && k != id ==> after_update(m, id, u)[k] == m[k]
        }),
{
    let u = UpdateView { text: Some(text), completed: None };
    assert(after_update(m, id, u).dom() =~= m.dom());
}

/// An update that carries only a completion flag replaces the flag and keeps
/// the text; no other record changes.
pub proof fn update_completed_keeps_text(m: Map<i32, TodoView>, id: i32, completed: bool)
    requires
        keyed_by_id(m),
        m.contains_key(id),
    ensures
        ({
            let u = UpdateView { text: None, completed: Some(completed) };
            &&& merged(m[id], u) == TodoView { id, text: m[id].text, completed }
            &&& after_update(m, id, u)[id] == merged(m[id], u)
            &&& after_update(m, id, u).dom() == m.dom()
            &&& forall|k: i32| #[trigger]
                m.contains_key(k) && k != id ==> after_update(m, id, u)[k] == m[k]
        }),
{
    let u = UpdateView { text: None, completed: Some(completed) };
    assert(after_update(m, id, u).dom() =~= m.dom());
}

/// After a successful `delete`, the id is absent, the store is one smaller,
/// and every other record stays.
pub proof fn find_after_delete(m: Map<i32, TodoView>, id: i32)
    requires
        keyed_by_id(m),
        m.contains_key(id),
    ensures
        !m.remove(id).contains_key(id),
        m.remove(id).len() == m.len() - 1,
        forall|k: i32| #[trigger]
            m.contains_key(k) && k != id ==> m.remove(id).contains_key(k) && m.remove(id)[k]
                == m[k],
{
}

/// Two creates on an empty store give the ids 1 and 2, and a list of that
/// store holds exactly the two created records.
pub proof fn list_after_two_creates(a: Seq<char>, b: Seq<char>, s: Seq<TodoView>)
    requires
        lists_exactly(after_create(after_create(Map::empty(), a), b), s),
    ensures
        created(Map::empty(), a) == (TodoView { id: 1, text: a, completed: false }),
        created(after_create(Map::empty(), a), b) == (TodoView { id: 2, text: b, completed: false }),
        s.len() == 2,
        s.contains(created(Map::empty(), a)),
        s.contains(created(after_create(Map::empty(), a), b)),
{
    let m0 = Map::<i32, TodoView>::empty();
    let m1 = after_create(m0, a);
    let m2 = after_create(m1, b);
    assert(m1.len() == 1);
    assert(m2.contains_key(1));
    assert(m2.contains_key(2));
    assert(m2.len() == 2);
}

} // verus!
