//! A todo service core: the record model, the validation that gates writes,
//! an in-memory repository, the decisions of the relational repository, and
//! the mapping from repository outcomes to HTTP replies.

pub mod error;
pub mod http;
pub mod laws;
pub mod relational;
pub mod store;
pub mod todo;
pub mod validation;

pub use error::RepositoryError;
pub use http::{Body, Reply};
pub use relational::DbError;
pub use store::TodoStore;
pub use todo::{CreateTodo, Todo, TodoView, UpdateTodo, UpdateView};
pub use validation::Violation;
