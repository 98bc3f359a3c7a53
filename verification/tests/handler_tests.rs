use todo_backend::handlers::all_response;
use todo_backend::handlers::all_todo;
use todo_backend::handlers::create_response;
use todo_backend::handlers::create_todo;
use todo_backend::handlers::delete_response;
use todo_backend::handlers::delete_todo;
use todo_backend::handlers::find_response;
use todo_backend::handlers::find_todo;
use todo_backend::handlers::update_response;
use todo_backend::handlers::update_todo;
use todo_backend::handlers::Status;
use todo_backend::handlers::ValidatedJson;
use todo_backend::memory::TodoRepositoryForMemory;
use todo_backend::repositories::RepositoryError;
use todo_backend::repositories::TodoRepository;
use todo_backend::todo::CreateTodo;
use todo_backend::todo::Todo;
use todo_backend::todo::UpdateTodo;

fn admitted(title: &str, description: Option<&str>) -> ValidatedJson<CreateTodo> {
    let payload = CreateTodo::new(title.to_string(), description.map(|text| text.to_string()));
    ValidatedJson::from_request(Ok(payload)).unwrap()
}

fn change(title: Option<&str>, description: Option<&str>, completed: Option<bool>) -> ValidatedJson<UpdateTodo> {
    let payload = UpdateTodo::new(
        title.map(|text| text.to_string()),
        description.map(|text| text.to_string()),
        completed,
    );
    ValidatedJson::from_request(Ok(payload)).unwrap()
}

fn fault() -> RepositoryError {
    RepositoryError::Unexpected("connection lost".to_string())
}

fn milk() -> Todo {
    Todo::new(1, "Buy milk".to_string(), String::new(), false)
}

#[test]
fn status_codes_are_the_http_numbers() {
    assert_eq!(Status::Success.code(), 200);
    assert_eq!(Status::Created.code(), 201);
    assert_eq!(Status::NoContent.code(), 204);
    assert_eq!(Status::BadRequest.code(), 400);
    assert_eq!(Status::NotFound.code(), 404);
    assert_eq!(Status::InternalServerError.code(), 500);
}

#[test]
fn unparsable_body_is_a_bad_request_with_the_parse_error() {
    let body: Result<CreateTodo, String> = Err("expected value at line 1 column 1".to_string());
    let rejection = ValidatedJson::from_request(body).unwrap_err();
    assert_eq!(
        rejection,
        (Status::BadRequest, "Json parse error: [expected value at line 1 column 1]".to_string())
    );
}

#[test]
fn unparsable_update_body_is_a_bad_request_too() {
    let body: Result<UpdateTodo, String> = Err("EOF".to_string());
    let rejection = ValidatedJson::from_request(body).unwrap_err();
    assert_eq!(rejection, (Status::BadRequest, "Json parse error: [EOF]".to_string()));
}

#[test]
fn invalid_payload_is_a_bad_request_with_the_violations() {
    let body = Ok(CreateTodo::new("x".repeat(101), None));
    let rejection = ValidatedJson::from_request(body).unwrap_err();
    assert_eq!(
        rejection,
        (
            Status::BadRequest,
            "Validation error: [title: length must be between 1 and 100]".to_string()
        )
    );
}

#[test]
fn valid_payload_is_admitted_unchanged() {
    let payload = CreateTodo::new("Buy milk".to_string(), Some("two litres".to_string()));
    let body = ValidatedJson::from_request(Ok(payload.clone())).unwrap();
    assert_eq!(body.into_inner(), payload);
}

#[test]
fn creating_with_an_empty_title_is_rejected_and_persists_nothing() {
    let repository = TodoRepositoryForMemory::new();
    let body = Ok(CreateTodo::new(String::new(), None));
    let rejection = ValidatedJson::from_request(body).unwrap_err();
    assert_eq!(rejection.0.code(), 400);
    assert_eq!(rejection.1, "Validation error: [title: length must be between 1 and 100]");
    assert_eq!(all_todo(&repository), Ok((Status::Success, vec![])));
}

#[test]
fn creating_buy_milk_answers_created_with_an_unused_id() {
    let mut repository = TodoRepositoryForMemory::new();
    let (_, earlier) = create_todo(&mut repository, admitted("Walk", None)).unwrap();
    let (status, todo) = create_todo(&mut repository, admitted("Buy milk", None)).unwrap();
    assert_eq!(status.code(), 201);
    assert_ne!(todo.id(), earlier.id());
    assert_eq!(todo.title(), "Buy milk");
    assert_eq!(todo.description(), "");
    assert!(!todo.completed());
}

#[test]
fn fetching_an_id_never_issued_is_not_found() {
    let mut repository = TodoRepositoryForMemory::new();
    let (_, last) = create_todo(&mut repository, admitted("a", None)).unwrap();
    assert_eq!(find_todo(last.id() + 1, &repository), Err(Status::NotFound));
    assert_eq!(Status::NotFound.code(), 404);
}

#[test]
fn fetching_a_stored_id_answers_success_with_the_row() {
    let mut repository = TodoRepositoryForMemory::new();
    create_todo(&mut repository, admitted("Buy milk", None)).unwrap();
    assert_eq!(find_todo(1, &repository), Ok((Status::Success, milk())));
}

#[test]
fn updating_completed_only_keeps_title_and_description() {
    let mut repository = TodoRepositoryForMemory::new();
    let (_, created) = create_todo(&mut repository, admitted("Buy milk", Some("two litres"))).unwrap();
    let answer = update_todo(&mut repository, created.id(), change(None, None, Some(true)));
    let expected = Todo::new(created.id(), "Buy milk".to_string(), "two litres".to_string(), true);
    assert_eq!(answer, Ok((Status::Created, expected.clone())));
    assert_eq!(repository.find(created.id()), Ok(expected));
}

#[test]
fn updating_a_missing_id_is_not_found() {
    let mut repository = TodoRepositoryForMemory::new();
    let answer = update_todo(&mut repository, 1, change(Some("a"), None, None));
    assert_eq!(answer, Err(Status::NotFound));
}

#[test]
fn deleting_then_fetching_or_deleting_again_is_not_found() {
    let mut repository = TodoRepositoryForMemory::new();
    let (_, created) = create_todo(&mut repository, admitted("Buy milk", None)).unwrap();
    assert_eq!(delete_todo(&mut repository, created.id()), Status::NoContent);
    assert_eq!(find_todo(created.id(), &repository), Err(Status::NotFound));
    assert_eq!(delete_todo(&mut repository, created.id()), Status::NotFound);
    assert_eq!(delete_todo(&mut repository, created.id()).code(), 404);
}

#[test]
fn listing_after_creations_shows_exactly_the_created() {
    let mut repository = TodoRepositoryForMemory::new();
    let mut created = Vec::new();
    for title in ["a", "b", "c", "d", "e"] {
        let (status, todo) = create_todo(&mut repository, admitted(title, None)).unwrap();
        assert_eq!(status, Status::Created);
        created.push(todo);
    }
    let (status, listed) = all_todo(&repository).unwrap();
    assert_eq!(status, Status::Success);
    assert_eq!(listed.len(), 5);
    for todo in created.iter() {
        assert_eq!(listed.iter().filter(|row| row.id() == todo.id()).count(), 1);
        assert!(listed.contains(todo));
    }
}

#[test]
fn creating_when_no_id_is_left_is_an_internal_error() {
    let mut repository = TodoRepositoryForMemory::starting_at(i32::MAX);
    assert_eq!(create_todo(&mut repository, admitted("a", None)), Err(Status::InternalServerError));
    assert_eq!(all_todo(&repository), Ok((Status::Success, vec![])));
}

#[test]
fn all_response_maps_each_outcome() {
    assert_eq!(all_response(Ok(vec![milk()])), Ok((Status::Success, vec![milk()])));
    assert_eq!(all_response(Ok(vec![])), Ok((Status::Success, vec![])));
    assert_eq!(all_response(Err(fault())), Err(Status::InternalServerError));
    assert_eq!(all_response(Err(RepositoryError::NotFound(1))), Err(Status::InternalServerError));
}

#[test]
fn find_response_maps_each_outcome() {
    assert_eq!(find_response(Ok(milk())), Ok((Status::Success, milk())));
    assert_eq!(find_response(Err(RepositoryError::NotFound(1))), Err(Status::NotFound));
    assert_eq!(find_response(Err(fault())), Err(Status::InternalServerError));
}

#[test]
fn create_response_maps_each_outcome() {
    assert_eq!(create_response(Ok(milk())), Ok((Status::Created, milk())));
    assert_eq!(create_response(Err(fault())), Err(Status::InternalServerError));
    assert_eq!(create_response(Err(RepositoryError::NotFound(1))), Err(Status::InternalServerError));
}

#[test]
fn update_response_answers_created_on_success() {
    assert_eq!(update_response(Ok(milk())), Ok((Status::Created, milk())));
    assert_eq!(update_response(Err(RepositoryError::NotFound(1))), Err(Status::NotFound));
    assert_eq!(update_response(Err(fault())), Err(Status::InternalServerError));
}

#[test]
fn delete_response_maps_each_outcome() {
    assert_eq!(delete_response(Ok(())), Status::NoContent);
    assert_eq!(delete_response(Err(RepositoryError::NotFound(1))), Status::NotFound);
    assert_eq!(delete_response(Err(fault())), Status::InternalServerError);
}
