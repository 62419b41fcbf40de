use auth_error::error::{AuthError, VarError};

#[test]
fn transport_error_is_kept_as_the_cause() {
    let cause = reqwest::Client::new()
        .get("not a url")
        .build()
        .unwrap_err();
    let message = cause.to_string();
    let is_builder = cause.is_builder();
    assert!(is_builder);
    match AuthError::from(cause) {
        AuthError::NetworkError(kept) => {
            assert_eq!(kept.to_string(), message);
            assert_eq!(kept.is_builder(), is_builder);
            assert!(!kept.is_timeout());
        }
        other => panic!("lifted into {:?}", other),
    }
}

#[test]
fn json_error_is_kept_as_the_cause() {
    let cause = serde_json::from_str::<serde_json::Value>("{\"code\": }").unwrap_err();
    let message = cause.to_string();
    let line = cause.line();
    let column = cause.column();
    assert!(cause.is_syntax());
    match AuthError::from(cause) {
        AuthError::ParseError(kept) => {
            assert_eq!(kept.to_string(), message);
            assert_eq!(kept.line(), line);
            assert_eq!(kept.column(), column);
            assert!(kept.is_syntax());
        }
        other => panic!("lifted into {:?}", other),
    }
}

#[test]
fn header_error_is_kept_as_the_cause() {
    let cause = reqwest::header::HeaderValue::from_str("line\nbreak").unwrap_err();
    let message = cause.to_string();
    match AuthError::from(cause) {
        AuthError::InvalidHeaderValue(kept) => assert_eq!(kept.to_string(), message),
        other => panic!("lifted into {:?}", other),
    }
}

#[test]
fn environment_error_is_kept_as_the_cause() {
    match AuthError::from(VarError::NotPresent) {
        AuthError::InvalidEnvironmentVariable(kept) => assert_eq!(kept, VarError::NotPresent),
        other => panic!("lifted into {:?}", other),
    }
    match AuthError::from(VarError::NotUnicode(vec![0x66, 0xff])) {
        AuthError::InvalidEnvironmentVariable(kept) => {
            assert_eq!(kept, VarError::NotUnicode(vec![0x66, 0xff]))
        }
        other => panic!("lifted into {:?}", other),
    }
}

#[test]
fn question_mark_lifts_a_json_error() {
    fn read(text: &str) -> Result<serde_json::Value, AuthError> {
        Ok(serde_json::from_str::<serde_json::Value>(text)?)
    }
    assert!(matches!(read("[1, 2"), Err(AuthError::ParseError(_))));
    assert!(read("[1, 2]").is_ok());
}
