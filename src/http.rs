//! What each route answers, from the outcome of its repository call.
//!
//! A handler decodes and validates the request, calls the repository, and
//! hands the outcome to one of these functions. `NotFound` answers 404 with an
//! empty body; any other repository failure answers 500 with a generic text.

use vstd::prelude::*;

use crate::error::RepositoryError;
use crate::todo::Todo;
use crate::validation::{report, validation_report, Violation};

verus! {

pub const OK: u16 = 200;

pub const CREATED: u16 = 201;

pub const NO_CONTENT: u16 = 204;

pub const BAD_REQUEST: u16 = 400;

pub const NOT_FOUND: u16 = 404;

pub const INTERNAL_SERVER_ERROR: u16 = 500;

/// The body of a reply.
#[derive(Clone, Debug, PartialEq, Eq)]
pub enum Body {
    Empty,
    /// Plain text.
    Text(String),
    /// One record, as JSON.
    Record(Todo),
    /// A list of records, as a JSON array.
    Records(Vec<Todo>),
}

/// A status code and a body.
#[derive(Clone, Debug, PartialEq, Eq)]
pub struct Reply {
    pub status: u16,
    pub body: Body,
}

pub open spec fn greeting_text() -> Seq<char> {
    "Hello, World!"@
}

pub open spec fn server_error_text() -> Seq<char> {
    "internal server error"@
}

/// Whether `r` answers `status` with `t` as its JSON body.
pub open spec fn answers_record(r: Reply, status: u16, t: Todo) -> bool {
    &&& r.status == status
    &&& r.body is Record
    &&& r.body->Record_0@ == t@
}

/// Whether `r` is the answer to a failed repository call.
pub open spec fn answers_failure(r: Reply, e: RepositoryError) -> bool {
    match e {
        RepositoryError::NotFound(_) => r.status == NOT_FOUND && r.body is Empty,
        RepositoryError::Unexpected(_) => {
            &&& r.status == INTERNAL_SERVER_ERROR
            &&& r.body is Text
            &&& r.body->Text_0@ == server_error_text()
        },
    }
}

/// `GET /`.
pub fn greeting() -> (r: Reply)
    ensures
        r.status == OK,
        r.body is Text,
        r.body->Text_0@ == greeting_text(),
{
    Reply { status: OK, body: Body::Text(String::from_str("Hello, World!")) }
}

/// A payload that broke a field rule: 400 with the joined violations.
pub fn rejected(vs: &Vec<Violation>) -> (r: Reply)
    ensures
        r.status == BAD_REQUEST,
        r.body is Text,
        r.body->Text_0@ == validation_report(vs@),
{
    Reply { status: BAD_REQUEST, body: Body::Text(report(vs)) }
}

/// A repository call that failed.
pub fn failed(e: &RepositoryError) -> (r: Reply)
    ensures
        answers_failure(r, *e),
{
    match e {
        RepositoryError::NotFound(_) => Reply { status: NOT_FOUND, body: Body::Empty },
        RepositoryError::Unexpected(_) => Reply {
            status: INTERNAL_SERVER_ERROR,
            body: Body::Text(String::from_str("internal server error")),
        },
    }
}

/// A call that returns one record, answered with `status` on success.
fn record_reply(status: u16, r: Result<Todo, RepositoryError>) -> (out: Reply)
    ensures
        match r {
            Ok(t) => answers_record(out, status, t),
            Err(e) => answers_failure(out, e),
        },
{
    match r {
        Ok(t) => Reply { status, body: Body::Record(t) },
        Err(e) => failed(&e),
    }
}

/// `POST /todos`, after validation: 201 with the created record.
pub fn created_reply(r: Result<Todo, RepositoryError>) -> (out: Reply)
    ensures
        match r {
            Ok(t) => answers_record(out, CREATED, t),
            Err(e) => answers_failure(out, e),
        },
{
    record_reply(CREATED, r)
}

/// `PATCH /todos/{id}`, after validation: 201 with the updated record.
pub fn updated_reply(r: Result<Todo, RepositoryError>) -> (out: Reply)
    ensures
        match r {
            Ok(t) => answers_record(out, CREATED, t),
            Err(e) => answers_failure(out, e),
        },
{
    record_reply(CREATED, r)
}

/// `GET /todos/{id}`: 200 with the record.
pub fn found_reply(r: Result<Todo, RepositoryError>) -> (out: Reply)
    ensures
        match r {
            Ok(t) => answers_record(out, OK, t),
            Err(e) => answers_failure(out, e),
        },
{
    record_reply(OK, r)
}

/// `GET /todos`: 200 with every record.
pub fn listed_reply(r: Result<Vec<Todo>, RepositoryError>) -> (out: Reply)
    ensures
        match r {
            Ok(ts) => {
                &&& out.status == OK
                &&& out.body is Records
                &&& out.body->Records_0@ == ts@
            },
            Err(e) => answers_failure(out, e),
        },
{
    match r {
        Ok(ts) => Reply { status: OK, body: Body::Records(ts) },
        Err(e) => failed(&e),
    }
}

/// `DELETE /todos/{id}`: 204 with an empty body.
pub fn deleted_reply(r: Result<(), RepositoryError>) -> (out: Reply)
    ensures
        match r {
            Ok(_) => out.status == NO_CONTENT && out.body is Empty,
            Err(e) => answers_failure(out, e),
        },
{
    match r {
        Ok(_) => Reply { status: NO_CONTENT, body: Body::Empty },
        Err(e) => failed(&e),
    }
}

} // verus!
