use vstd::prelude::*;

verus! {

/// A stored todo record.
#[derive(Clone, Debug, PartialEq, Eq)]
pub struct Todo {
    pub id: i32,
    pub text: String,
    pub completed: bool,
}

/// The mathematical value of a `Todo`.
pub struct TodoView {
    pub id: i32,
    pub text: Seq<char>,
    pub completed: bool,
}

impl View for Todo {
    type V = TodoView;

    open spec fn view(&self) -> TodoView {
        TodoView { id: self.id, text: self.text@, completed: self.completed }
    }
}

impl Todo {
    /// A fresh, not yet completed record.
    pub fn new(id: i32, text: String) -> (r: Todo)
        ensures
            r@ == (TodoView { id, text: text@, completed: false }),
    {
        Todo { id, text, completed: false }
    }

    /// A copy of this record, field for field.
    pub fn duplicate(&self) -> (r: Todo)
        ensures
            r@ == self@,
    {
        Todo { id: self.id, text: self.text.clone(), completed: self.completed }
    }
}

/// The payload of a create request.
#[derive(Clone, Debug, PartialEq, Eq)]
pub struct CreateTodo {
    pub text: String,
}

impl CreateTodo {
    pub fn new(text: String) -> (r: CreateTodo)
        ensures
            r.text@ == text@,
    {
        CreateTodo { text }
    }
}

/// The payload of a partial update: an absent field keeps its stored value.
#[derive(Clone, Debug, PartialEq, Eq)]
pub struct UpdateTodo {
    pub text: Option<String>,
    pub completed: Option<bool>,
}

/// The mathematical value of an `UpdateTodo`.
pub struct UpdateView {
    pub text: Option<Seq<char>>,
    pub completed: Option<bool>,
}

impl View for UpdateTodo {
    type V = UpdateView;

    open spec fn view(&self) -> UpdateView {
        UpdateView {
            text: match self.text {
                Some(t) => Some(t@),
                None => None,
            },
            completed: self.completed,
        }
    }
}

/// The record that results from laying the present fields of `u` over `old`.
pub open spec fn merged(old: TodoView, u: UpdateView) -> TodoView {
    TodoView {
        id: old.id,
        text: match u.text {
            Some(t) => t,
            None => old.text,
        },
        completed: match u.completed {
            Some(c) => c,
            None => old.completed,
        },
    }
}

impl UpdateTodo {
    /// Lays the present fields of this payload over `old`; the id is kept.
    pub fn apply_to(&self, old: &Todo) -> (r: Todo)
        ensures
            r@ == merged(old@, self@),
    {
        let text = match &self.text {
            Some(t) => t.clone(),
            None => old.text.clone(),
        };
        let completed = match self.completed {
            Some(c) => c,
            None => old.completed,
        };
        Todo { id: old.id, text, completed }
    }
}

} // verus!
