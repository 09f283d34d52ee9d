use syewreal::error::{ErrorKind, SurrealError};
use syewreal::response::Response;

#[test]
fn the_fetch_takes_the_first_result_set() {
    let response: Response<i32> = Response::new(vec![Ok(vec![1, 2])]);
    assert_eq!(response.len(), 1);
    assert_eq!(response.into_first().unwrap(), vec![1, 2]);
}

#[test]
fn sets_are_addressed_by_statement_position() {
    let response: Response<i32> = Response::new(vec![Ok(vec![]), Ok(vec![7])]);
    assert_eq!(response.into_set(1).unwrap(), vec![7]);
}

#[test]
fn one_failed_set_does_not_taint_the_others() {
    let response: Response<i32> = Response::new(vec![
        Err(SurrealError::Deserialization("field types differ".to_string())),
    ]);
    assert_eq!(response.into_first().unwrap_err().kind(), ErrorKind::Deserialization);
}

#[test]
fn a_missing_set_is_an_error_not_empty_rows() {
    let empty: Response<i32> = Response::new(vec![]);
    assert_eq!(empty.into_first().unwrap_err().kind(), ErrorKind::Deserialization);
    let one: Response<i32> = Response::new(vec![Ok(vec![1])]);
    assert_eq!(one.into_set(3).unwrap_err().kind(), ErrorKind::Deserialization);
}
