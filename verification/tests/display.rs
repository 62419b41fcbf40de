use auth_error::decimal::{decimal, unsigned_decimal};
use auth_error::error::{AuthError, StatusCode, VarError};
use auth_error::payload::SupabaseHTTPError;

fn payload(code: i32, message: &str) -> SupabaseHTTPError {
    SupabaseHTTPError {
        code,
        error_code: None,
        message: message.to_string(),
        internal_error: None,
        internal_message: None,
        error_id: None,
    }
}

fn json_string(s: &str) -> serde_json::Value {
    serde_json::Value::String(s.to_string())
}

#[test]
fn parameterless_variants_render_their_fixed_text() {
    assert_eq!(AuthError::AlreadySignedUp.to_string(), "User Already Exists");
    assert_eq!(AuthError::WrongCredentials.to_string(), "Invalid Credentials");
    assert_eq!(AuthError::UserNotFound.to_string(), "User Not Found");
    assert_eq!(
        AuthError::NotAuthenticated.to_string(),
        "Supabase Client not Authenticated"
    );
    assert_eq!(
        AuthError::MissingRefreshToken.to_string(),
        "Missing Refresh Token"
    );
    assert_eq!(AuthError::WrongToken.to_string(), "JWT Is Invalid");
    assert_eq!(AuthError::InternalError.to_string(), "Internal Error");
    assert_eq!(AuthError::ParseUrlError.to_string(), "Failed to parse URL");
}

#[test]
fn variants_with_a_cause_render_their_fixed_text() {
    let transport = reqwest::Client::new()
        .get("not a url")
        .build()
        .unwrap_err();
    assert_eq!(
        AuthError::NetworkError(transport).to_string(),
        "Network Error"
    );
    let json = serde_json::from_str::<serde_json::Value>("{").unwrap_err();
    assert_eq!(AuthError::ParseError(json).to_string(), "Failed to Parse");
    let header = reqwest::header::HeaderValue::from_str("line\nbreak").unwrap_err();
    assert_eq!(
        AuthError::InvalidHeaderValue(header).to_string(),
        "Header Value is Invalid"
    );
    assert_eq!(
        AuthError::InvalidEnvironmentVariable(VarError::NotPresent).to_string(),
        "Environment Variable Unreadable"
    );
    assert_eq!(
        AuthError::InvalidEnvironmentVariable(VarError::NotUnicode(vec![0xff, 0xfe])).to_string(),
        "Environment Variable Unreadable"
    );
}

#[test]
fn status_and_message_render_after_error() {
    let error = AuthError::AuthError {
        status: StatusCode::from_u16(404).unwrap(),
        message: "not found".to_string(),
    };
    assert_eq!(error.to_string(), "Error: 404: not found");
}

#[test]
fn status_and_empty_message() {
    let error = AuthError::AuthError {
        status: StatusCode::from_u16(999).unwrap(),
        message: String::new(),
    };
    assert_eq!(error.to_string(), "Error: 999: ");
}

#[test]
fn payload_with_error_code_only() {
    let p = SupabaseHTTPError {
        code: 400,
        error_code: Some("invalid_grant".to_string()),
        message: "Bad request".to_string(),
        internal_error: None,
        internal_message: None,
        error_id: None,
    };
    assert_eq!(
        p.to_string(),
        "Status Code 400 (invalid_grant)\nMessage: Bad request"
    );
}

#[test]
fn payload_with_every_field_renders_in_order() {
    let p = SupabaseHTTPError {
        code: 500,
        error_code: Some("ec".to_string()),
        message: "m".to_string(),
        internal_error: Some(json_string("ie")),
        internal_message: Some(json_string("im")),
        error_id: Some("eid".to_string()),
    };
    let text = p.to_string();
    assert_eq!(
        text,
        "Status Code 500 (ec) [Error ID: eid]\nInternal message: \"im\"\nInternal error: \"ie\"\nMessage: m"
    );
    let segments = [
        "Status Code 500",
        " (ec)",
        " [Error ID: eid]",
        "\nInternal message: ",
        "\nInternal error: ",
        "\nMessage: m",
    ];
    let mut from = 0;
    for segment in segments {
        let at = text[from..].find(segment).expect("segment in order");
        from += at + segment.len();
    }
    assert_eq!(from, text.len());
}

#[test]
fn payload_with_nothing_optional() {
    assert_eq!(payload(0, "").to_string(), "Status Code 0\nMessage: ");
}

#[test]
fn payload_with_error_id_only() {
    let mut p = payload(401, "denied");
    p.error_id = Some("abc-123".to_string());
    assert_eq!(
        p.to_string(),
        "Status Code 401 [Error ID: abc-123]\nMessage: denied"
    );
}

#[test]
fn payload_with_internal_error_only() {
    let mut p = payload(500, "oops");
    p.internal_error = Some(serde_json::from_str("{\"b\": [1, 2.5, null], \"a\": true}").unwrap());
    assert_eq!(
        p.to_string(),
        "Status Code 500\nInternal error: {\"a\":true,\"b\":[1,2.5,null]}\nMessage: oops"
    );
}

#[test]
fn payload_with_internal_message_only() {
    let mut p = payload(500, "oops");
    p.internal_message = Some(serde_json::Value::from(7));
    assert_eq!(
        p.to_string(),
        "Status Code 500\nInternal message: 7\nMessage: oops"
    );
}

#[test]
fn payload_with_negative_codes() {
    assert_eq!(payload(-1, "x").to_string(), "Status Code -1\nMessage: x");
    assert_eq!(
        payload(i32::MIN, "x").to_string(),
        "Status Code -2147483648\nMessage: x"
    );
    assert_eq!(
        payload(i32::MAX, "x").to_string(),
        "Status Code 2147483647\nMessage: x"
    );
}

#[test]
fn payload_message_is_taken_as_it_is() {
    assert_eq!(
        payload(1, "two\nlines \"quoted\" é").to_string(),
        "Status Code 1\nMessage: two\nlines \"quoted\" é"
    );
}

#[test]
fn wrapped_payload_renders_as_the_payload() {
    let mut p = payload(422, "weak password");
    p.error_code = Some("weak_password".to_string());
    let expected = p.to_string();
    assert_eq!(expected, "Status Code 422 (weak_password)\nMessage: weak password");
    assert_eq!(AuthError::Supabase(p).to_string(), expected);
}

#[test]
fn decimal_of_small_and_extreme_numbers() {
    assert_eq!(decimal(0), "0");
    assert_eq!(decimal(7), "7");
    assert_eq!(decimal(10), "10");
    assert_eq!(decimal(-10), "-10");
    assert_eq!(decimal(1005), "1005");
    assert_eq!(decimal(i64::MAX), "9223372036854775807");
    assert_eq!(decimal(i64::MIN), "-9223372036854775808");
    assert_eq!(unsigned_decimal(0), "0");
    assert_eq!(unsigned_decimal(9), "9");
    assert_eq!(unsigned_decimal(u64::MAX), "18446744073709551615");
}

#[test]
fn decimal_agrees_with_the_standard_formatting() {
    let mut n: i64 = -100_000;
    while n <= 100_000 {
        assert_eq!(decimal(n), format!("{}", n));
        n += 37;
    }
}

#[test]
fn status_codes_run_from_100_to_999() {
    assert!(StatusCode::from_u16(0).is_none());
    assert!(StatusCode::from_u16(99).is_none());
    assert!(StatusCode::from_u16(1000).is_none());
    assert!(StatusCode::from_u16(u16::MAX).is_none());
    assert_eq!(StatusCode::from_u16(100).unwrap().as_u16(), 100);
    assert_eq!(StatusCode::from_u16(404).unwrap().as_u16(), 404);
    assert_eq!(StatusCode::from_u16(999).unwrap().as_u16(), 999);
    assert_eq!(StatusCode::from_u16(200), StatusCode::from_u16(200));
    assert_ne!(StatusCode::from_u16(200), StatusCode::from_u16(201));
}
