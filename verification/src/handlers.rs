//! Request handling: the validated request body, and the status that answers
//! each outcome of a repository operation.

use vstd::prelude::*;
use vstd::string::StringExecFns;
use crate::repositories::create_outcome;
use crate::repositories::lists;
use crate::repositories::update_outcome;
use crate::repositories::views;
use crate::repositories::RepositoryError;
use crate::repositories::TodoRepository;
use crate::text::newlines_spread;
use crate::text::spread_newlines;
use crate::todo::CreateTodo;
use crate::todo::Todo;
use crate::todo::UpdateTodo;
use crate::validation::title_length_ok;
use crate::validation::violations_text;
use crate::validation::Validate;
use crate::validation::ViolationData;

verus! {

/// The HTTP statuses that this service answers with.
#[derive(Debug, Clone, Copy, PartialEq, Eq, Structural)]
pub enum Status {
    Success,
    Created,
    NoContent,
    BadRequest,
    NotFound,
    InternalServerError,
}

impl Status {
    /// The number of the status.
    pub open spec fn number(self) -> u16 {
        match self {
            Status::Success => 200,
            Status::Created => 201,
            Status::NoContent => 204,
            Status::BadRequest => 400,
            Status::NotFound => 404,
            Status::InternalServerError => 500,
        }
    }

    /// The status code on the wire.
    pub fn code(self) -> (res: u16)
        ensures
            res == self.number(),
    {
        match self {
            Status::Success => 200,
            Status::Created => 201,
            Status::NoContent => 204,
            Status::BadRequest => 400,
            Status::NotFound => 404,
            Status::InternalServerError => 500,
        }
    }
}

/// The body of the answer to a request whose body could not be parsed.
pub open spec fn parse_error_text(rejection: Seq<char>) -> Seq<char> {
    "Json parse error: ["@ + rejection + "]"@
}

/// The body of the answer to a request whose payload violates constraints:
/// the report of the violations on one line.
pub open spec fn validation_error_text(violations: Seq<ViolationData>) -> Seq<char> {
    "Validation error: ["@ + newlines_spread(violations_text(violations)) + "]"@
}

/// A request body that was parsed and has passed validation. A handler that
/// takes one cannot be reached with a payload that violates a constraint.
#[derive(Debug)]
pub struct ValidatedJson<T: Validate>(T);

impl<T: Validate> ValidatedJson<T> {
    #[verifier::type_invariant]
    spec fn holds_valid_payload(self) -> bool {
        self.0.violations().len() == 0
    }

    /// The payload inside.
    pub closed spec fn payload(self) -> T {
        self.0
    }

    /// Admits a request body. `body` is what parsing the body gave: the
    /// payload, or the text that says why it could not be parsed. A body that
    /// did not parse and a payload that violates a constraint are both
    /// answered with `BadRequest` and a message that says which it was.
    pub fn from_request(body: Result<T, String>) -> (res: Result<Self, (Status, String)>)
        ensures
            match body {
                Err(rejection) => res matches Err((status, message)) && status
                    == Status::BadRequest && message@ == parse_error_text(rejection@),
                Ok(value) => if value.violations().len() == 0 {
                    res matches Ok(admitted) && admitted.payload() == value
                } else {
                    res matches Err((status, message)) && status == Status::BadRequest
                        && message@ == validation_error_text(value.violations())
                },
            },
    {
        match body {
            Err(rejection) => {
                let mut message = String::from_str("Json parse error: [");
                message.append(rejection.as_str());
                message.append("]");
                Err((Status::BadRequest, message))
            },
            Ok(value) => match value.validate() {
                Err(rejection) => {
                    let report = spread_newlines(rejection.message().as_str());
                    let mut message = String::from_str("Validation error: [");
                    message.append(report.as_str());
                    message.append("]");
                    Err((Status::BadRequest, message))
                },
                Ok(_) => Ok(ValidatedJson(value)),
            },
        }
    }

    /// Hands out the payload, which violates no constraint.
    pub fn into_inner(self) -> (res: T)
        ensures
            res == self.payload(),
            res.violations().len() == 0,
    {
        proof {
            use_type_invariant(&self);
        }
        self.0
    }
}

/// The answer to a listing: the rows with `Success`, or
/// `InternalServerError` for any failure.
pub open spec fn spec_all_response(res: Result<Vec<Todo>, RepositoryError>) -> Result<
    (Status, Vec<Todo>),
    Status,
> {
    match res {
        Ok(todos) => Ok((Status::Success, todos)),
        Err(_) => Err(Status::InternalServerError),
    }
}

/// The answer to a fetch: the row with `Success`, `NotFound` for a missing
/// row, `InternalServerError` for a store fault.
pub open spec fn spec_find_response(res: Result<Todo, RepositoryError>) -> Result<
    (Status, Todo),
    Status,
> {
    match res {
        Ok(todo) => Ok((Status::Success, todo)),
        Err(RepositoryError::NotFound(_)) => Err(Status::NotFound),
        Err(RepositoryError::Unexpected(_)) => Err(Status::InternalServerError),
    }
}

/// The answer to a creation: the new row with `Created`, or
/// `InternalServerError` for any failure.
pub open spec fn spec_create_response(res: Result<Todo, RepositoryError>) -> Result<
    (Status, Todo),
    Status,
> {
    match res {
        Ok(todo) => Ok((Status::Created, todo)),
        Err(_) => Err(Status::InternalServerError),
    }
}

/// The answer to an update: the merged row with `Created`, `NotFound` for a
/// missing row, `InternalServerError` for a store fault.
pub open spec fn spec_update_response(res: Result<Todo, RepositoryError>) -> Result<
    (Status, Todo),
    Status,
> {
    match res {
        Ok(todo) => Ok((Status::Created, todo)),
        Err(RepositoryError::NotFound(_)) => Err(Status::NotFound),
        Err(RepositoryError::Unexpected(_)) => Err(Status::InternalServerError),
    }
}

/// The answer to a deletion: `NoContent` once the row is gone, `NotFound`
/// for a missing row, `InternalServerError` for a store fault.
pub open spec fn spec_delete_response(res: Result<(), RepositoryError>) -> Status {
    match res {
        Ok(_) => Status::NoContent,
        Err(RepositoryError::NotFound(_)) => Status::NotFound,
        Err(RepositoryError::Unexpected(_)) => Status::InternalServerError,
    }
}

/// Answers a listing, given what the repository said.
pub fn all_response(res: Result<Vec<Todo>, RepositoryError>) -> (out: Result<
    (Status, Vec<Todo>),
    Status,
>)
    ensures
        out == spec_all_response(res),
{
    match res {
        Ok(todos) => Ok((Status::Success, todos)),
        Err(_) => Err(Status::InternalServerError),
    }
}

/// Answers a fetch, given what the repository said.
pub fn find_response(res: Result<Todo, RepositoryError>) -> (out: Result<(Status, Todo), Status>)
    ensures
        out == spec_find_response(res),
{
    match res {
        Ok(todo) => Ok((Status::Success, todo)),
        Err(RepositoryError::NotFound(_)) => Err(Status::NotFound),
        Err(RepositoryError::Unexpected(_)) => Err(Status::InternalServerError),
    }
}

/// Answers a creation, given what the repository said.
pub fn create_response(res: Result<Todo, RepositoryError>) -> (out: Result<(Status, Todo), Status>)
    ensures
        out == spec_create_response(res),
{
    match res {
        Ok(todo) => Ok((Status::Created, todo)),
        Err(_) => Err(Status::InternalServerError),
    }
}

/// Answers an update, given what the repository said.
pub fn update_response(res: Result<Todo, RepositoryError>) -> (out: Result<(Status, Todo), Status>)
    ensures
        out == spec_update_response(res),
{
    match res {
        Ok(todo) => Ok((Status::Created, todo)),
        Err(RepositoryError::NotFound(_)) => Err(Status::NotFound),
        Err(RepositoryError::Unexpected(_)) => Err(Status::InternalServerError),
    }
}

/// Answers a deletion, given what the repository said.
pub fn delete_response(res: Result<(), RepositoryError>) -> (out: Status)
    ensures
        out == spec_delete_response(res),
{
    match res {
        Ok(_) => Status::NoContent,
        Err(RepositoryError::NotFound(_)) => Status::NotFound,
        Err(RepositoryError::Unexpected(_)) => Status::InternalServerError,
    }
}

/// Lists every todo: `Success` with each row exactly once. It fails, with
/// `InternalServerError`, only on a store fault.
pub fn all_todo<T: TodoRepository>(repository: &T) -> (res: Result<(Status, Vec<Todo>), Status>)
    requires
        repository.inv(),
    ensures
        match res {
            Ok((status, todos)) => {
                &&& status == Status::Success
                &&& lists(repository.table().rows, views(todos@))
            },
            Err(status) => status == Status::InternalServerError && !repository.faultless(),
        },
{
    all_response(repository.all())
}

/// Fetches the todo `id`: `Success` with the row where the table holds it,
/// `NotFound` where it does not, `InternalServerError` on a store fault.
pub fn find_todo<T: TodoRepository>(id: i32, repository: &T) -> (res: Result<(Status, Todo), Status>)
    requires
        repository.inv(),
    ensures
        match res {
            Ok((status, todo)) => {
                &&& status == Status::Success
                &&& repository.table().rows.contains_key(id)
                &&& todo@ == repository.table().rows[id]
            },
            Err(status) => {
                ||| status == Status::NotFound && !repository.table().rows.contains_key(id)
                ||| status == Status::InternalServerError && !repository.faultless()
            },
        },
{
    find_response(repository.find(id))
}

/// Creates a todo from a payload that has passed validation: `Created` with
/// the new row. It fails, with `InternalServerError`, only on a store fault,
/// and then the table is as it was.
pub fn create_todo<T: TodoRepository>(repository: &mut T, payload: ValidatedJson<CreateTodo>) -> (res:
    Result<(Status, Todo), Status>)
    requires
        old(repository).inv(),
    ensures
        final(repository).inv(),
        match res {
            Ok((status, todo)) => {
                &&& status == Status::Created
                &&& title_length_ok(todo@.title)
                &&& create_outcome(
                    old(repository).table(),
                    payload.payload()@,
                    Ok(todo),
                    final(repository).table(),
                )
            },
            Err(status) => {
                &&& status == Status::InternalServerError
                &&& !old(repository).faultless()
                &&& final(repository).table() == old(repository).table()
            },
        },
{
    let payload = payload.into_inner();
    create_response(repository.create(payload))
}

/// Merges a payload into the todo `id`: `Created` with the merged row,
/// `NotFound` where the table holds no such row, `InternalServerError` on a
/// store fault. After a failure the table is as it was.
pub fn update_todo<T: TodoRepository>(
    repository: &mut T,
    id: i32,
    payload: ValidatedJson<UpdateTodo>,
) -> (res: Result<(Status, Todo), Status>)
    requires
        old(repository).inv(),
    ensures
        final(repository).inv(),
        old(repository).faultless() ==> final(repository).faultless(),
        match res {
            Ok((status, todo)) => {
                &&& status == Status::Created
                &&& update_outcome(
                    old(repository).table(),
                    id,
                    payload.payload()@,
                    Ok(todo),
                    final(repository).table(),
                )
            },
            Err(status) => {
                &&& final(repository).table() == old(repository).table()
                &&& {
                    ||| status == Status::NotFound && !old(repository).table().rows.contains_key(id)
                    ||| status == Status::InternalServerError && !old(repository).faultless()
                }
            },
        },
{
    let payload = payload.into_inner();
    update_response(repository.update(id, payload))
}

/// Deletes the todo `id`: `NoContent` once it is gone, `NotFound` where the
/// table holds no such row, `InternalServerError` on a store fault. After a
/// failure the table is as it was.
pub fn delete_todo<T: TodoRepository>(repository: &mut T, id: i32) -> (res: Status)
    requires
        old(repository).inv(),
    ensures
        final(repository).inv(),
        old(repository).faultless() ==> final(repository).faultless(),
        match res {
            Status::NoContent => {
                &&& old(repository).table().rows.contains_key(id)
                &&& final(repository).table() == old(repository).table().with_deleted(id)
            },
            Status::NotFound => {
                &&& !old(repository).table().rows.contains_key(id)
                &&& final(repository).table() == old(repository).table()
            },
            Status::InternalServerError => {
                &&& !old(repository).faultless()
                &&& final(repository).table() == old(repository).table()
            },
            _ => false,
        },
{
    delete_response(repository.delete(id))
}

} // verus!
