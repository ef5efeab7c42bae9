use runner::errors::ApiError;

#[test]
fn test_bad_request_display() {
    let e = ApiError::BadRequest("invalid input".to_string());
    assert_eq!(e.to_string(), "bad_request: invalid input");
}

#[test]
fn test_forbidden_display() {
    let e = ApiError::Forbidden("access denied".to_string());
    assert_eq!(e.to_string(), "forbidden: access denied");
}

#[test]
fn test_other_display() {
    let e = ApiError::from(anyhow::Error::msg("something broke"));
    assert_eq!(e.to_string(), "something broke");
}

#[test]
fn test_bad_request_response_status() {
    let e = ApiError::BadRequest("test".to_string());
    assert_eq!(e.status_code(), axum::http::StatusCode::BAD_REQUEST.as_u16());
}

#[test]
fn test_forbidden_response_status() {
    let e = ApiError::Forbidden("test".to_string());
    assert_eq!(e.status_code(), axum::http::StatusCode::FORBIDDEN.as_u16());
}

#[test]
fn test_other_response_status() {
    let e = ApiError::from(anyhow::Error::msg("err"));
    assert_eq!(e.status_code(), axum::http::StatusCode::INTERNAL_SERVER_ERROR.as_u16());
}

#[test]
fn test_from_anyhow() {
    let anyhow_err = anyhow::Error::msg("test error");
    let api_err: ApiError = anyhow_err.into();
    assert!(matches!(api_err, ApiError::Other(_)));
}

#[test]
fn from_anyhow_keeps_the_message() {
    let api_err = ApiError::from(anyhow::Error::msg("disk full"));
    match api_err {
        ApiError::Other(m) => assert_eq!(m, "disk full"),
        _ => panic!("a failure of no class was expected"),
    }
}

#[test]
fn detail_is_the_message_without_its_class() {
    assert_eq!(ApiError::BadRequest("a".to_string()).detail_text(), "a");
    assert_eq!(ApiError::Forbidden("b".to_string()).detail_text(), "b");
    assert_eq!(ApiError::Other("c".to_string()).detail_text(), "c");
    assert_eq!(ApiError::Other("c".to_string()).to_string(), "c");
}

#[test]
fn constructors_own_their_detail() {
    assert!(matches!(ApiError::bad_request("x"), ApiError::BadRequest(m) if m == "x"));
    assert!(matches!(ApiError::forbidden("y"), ApiError::Forbidden(m) if m == "y"));
}
