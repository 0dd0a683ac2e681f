use vstd::prelude::*;

verus! {

/// Why a repository operation failed.
#[derive(Clone, Debug, PartialEq, Eq)]
pub enum RepositoryError {
    /// No record has the given id.
    NotFound(i32),
    /// The backend failed for a reason of its own (I/O, protocol, bad row).
    Unexpected(String),
}

/// The mathematical value of a `RepositoryError`.
pub enum ErrorView {
    NotFound(i32),
    Unexpected(Seq<char>),
}

impl View for RepositoryError {
    type V = ErrorView;

    open spec fn view(&self) -> ErrorView {
        match self {
            RepositoryError::NotFound(id) => ErrorView::NotFound(*id),
            RepositoryError::Unexpected(m) => ErrorView::Unexpected(m@),
        }
    }
}

} // verus!
