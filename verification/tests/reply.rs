use async_graphql::{Response, ServerError, Value};
use music_subgraphs::reply::{graphql_reply, surface_execution, ServerFailure, SERVER_ERROR_STATUS};

#[test]
fn generic_failure_has_the_server_error_status_and_text() {
    let failure = ServerFailure::generic();
    assert_eq!(failure.status, 500);
    assert_eq!(failure.message, "Internal server error");
    assert_eq!(SERVER_ERROR_STATUS, 500);
}

#[test]
fn surface_execution_passes_a_result_on() {
    let executed: Result<Vec<u8>, String> = Ok(vec![1, 2, 3]);
    assert_eq!(surface_execution(executed), Ok(vec![1, 2, 3]));
}

#[test]
fn surface_execution_hides_what_failed() {
    let executed: Result<Vec<u8>, String> = Err("table albums is locked by pid 4711".to_string());
    assert_eq!(
        surface_execution(executed),
        Err(ServerFailure { status: 500, message: "Internal server error".to_string() })
    );
}

#[test]
fn surface_execution_gives_the_same_failure_for_every_error() {
    let first: Result<(), u8> = Err(1);
    let second: Result<(), Vec<String>> = Err(vec!["a".to_string(), "b".to_string()]);
    assert_eq!(surface_execution(first).err(), surface_execution(second).err());
}

#[test]
fn graphql_reply_passes_a_response_without_errors() {
    let response = Response::new(Value::from("albums"));
    let reply = graphql_reply(response).expect("no error was reported");
    assert_eq!(reply, Response::new(Value::from("albums")));
}

#[test]
fn graphql_reply_turns_a_response_with_errors_into_the_generic_failure() {
    let response = Response::from_errors(vec![ServerError::new("Entity not found.", None)]);
    assert_eq!(graphql_reply(response), Err(ServerFailure::generic()));
}

#[test]
fn graphql_reply_fails_a_response_that_has_data_and_errors() {
    let mut response = Response::new(Value::from("partial"));
    response.errors.push(ServerError::new("resolver failed", None));
    response.errors.push(ServerError::new("resolver failed again", None));
    let reply = graphql_reply(response);
    assert_eq!(
        reply,
        Err(ServerFailure { status: 500, message: "Internal server error".to_string() })
    );
}
