//! The decisions of the relational repository. The statements themselves run
//! against a connection pool outside this crate; their outcomes come back here
//! as plain values, and these functions turn them into repository results.

use vstd::prelude::*;

use crate::error::{ErrorView, RepositoryError};
use crate::todo::{merged, Todo, UpdateTodo};

verus! {

/// A failed statement, as the relational repository sees it.
#[derive(Clone, Debug, PartialEq, Eq)]
pub struct DbError {
    /// The statement expected a row and the table held none.
    pub row_not_found: bool,
    /// The database's description of the failure.
    pub message: String,
}

/// A statement that addresses the row under `id` (select, update or delete):
/// a missing row is `NotFound(id)`, anything else is `Unexpected`.
pub fn lookup_error(id: i32, e: DbError) -> (r: RepositoryError)
    ensures
        r@ == (if e.row_not_found {
            ErrorView::NotFound(id)
        } else {
            ErrorView::Unexpected(e.message@)
        }),
{
    if e.row_not_found {
        RepositoryError::NotFound(id)
    } else {
        RepositoryError::Unexpected(e.message)
    }
}

/// The outcome of a statement that addresses the row under `id`.
pub fn fetched<T>(id: i32, r: Result<T, DbError>) -> (out: Result<T, RepositoryError>)
    ensures
        match r {
            Ok(v) => out == Ok::<T, RepositoryError>(v),
            Err(e) => out is Err && out->Err_0@ == (if e.row_not_found {
                ErrorView::NotFound(id)
            } else {
                ErrorView::Unexpected(e.message@)
            }),
        },
{
    match r {
        Ok(v) => Ok(v),
        Err(e) => Err(lookup_error(id, e)),
    }
}

/// The outcome of a statement that addresses no particular row (insert, or a
/// select of every row): every failure is `Unexpected`.
pub fn executed<T>(r: Result<T, DbError>) -> (out: Result<T, RepositoryError>)
    ensures
        match r {
            Ok(v) => out == Ok::<T, RepositoryError>(v),
            Err(e) => out is Err && out->Err_0@ == ErrorView::Unexpected(e.message@),
        },
{
    match r {
        Ok(v) => Ok(v),
        Err(e) => Err(RepositoryError::Unexpected(e.message)),
    }
}

/// The second step of an update, from the outcome of the select that read
/// the current row: the record to write back, with each field of the payload
/// that is present laid over the stored one, or the failure to report.
///
/// The select and the update are two statements, not one transaction: a
/// write of another client in between may be lost.
pub fn plan_update(id: i32, current: Result<Todo, DbError>, payload: &UpdateTodo) -> (r: Result<
    Todo,
    RepositoryError,
>)
    ensures
        r is Ok <==> current is Ok,
        match current {
            Ok(old) => r is Ok && r->Ok_0@ == merged(old@, payload@),
            Err(e) => r is Err && r->Err_0@ == (if e.row_not_found {
                ErrorView::NotFound(id)
            } else {
                ErrorView::Unexpected(e.message@)
            }),
        },
{
    match current {
        Ok(old) => Ok(payload.apply_to(&old)),
        Err(e) => Err(lookup_error(id, e)),
    }
}

/// The outcome of the delete statement, from the number of rows it removed:
/// none removed is `NotFound(id)`.
pub fn deleted(id: i32, r: Result<u64, DbError>) -> (out: Result<(), RepositoryError>)
    ensures
        out is Ok <==> (r is Ok && r->Ok_0 > 0),
        match r {
            Ok(n) => n == 0 ==> out is Err && out->Err_0@ == ErrorView::NotFound(id),
            Err(e) => out is Err && out->Err_0@ == (if e.row_not_found {
                ErrorView::NotFound(id)
            } else {
                ErrorView::Unexpected(e.message@)
            }),
        },
{
    match r {
        Ok(n) => {
            if n == 0 {
                Err(RepositoryError::NotFound(id))
            } else {
                Ok(())
            }
        },
        Err(e) => Err(lookup_error(id, e)),
    }
}

} // verus!
