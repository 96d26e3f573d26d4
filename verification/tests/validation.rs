use server::error_handler::{AppError, JsonRejection};
use server::handlers::{login_validation, CreateRoleRequest, LoginRequest, RefreshRequest};
use server::validators::{validate_email, validate_length, Validate, ValidatedJson, ValidationErrors};

fn report(e: &ValidationErrors) -> Vec<(String, Vec<(String, Option<String>)>)> {
    e.fields
        .iter()
        .map(|f| (f.field.clone(), f.errors.iter().map(|x| (x.code.clone(), x.message.clone())).collect()))
        .collect()
}

const LOGIN_MSG: &str = "Email và mật khẩu không hợp lệ.";

#[test]
fn valid_login_passes() {
    let r = LoginRequest { email: "user@example.com".to_string(), password: "12345678".to_string() };
    assert!(r.validate().is_ok());
}

#[test]
fn login_with_bad_email_and_short_password() {
    let r = LoginRequest { email: "not-an-email".to_string(), password: "short".to_string() };
    let e = r.validate().unwrap_err();
    assert_eq!(
        report(&e),
        vec![
            ("email".to_string(), vec![("email".to_string(), Some(LOGIN_MSG.to_string()))]),
            ("password".to_string(), vec![("length".to_string(), Some(LOGIN_MSG.to_string()))]),
        ]
    );
}

#[test]
fn password_length_counts_characters() {
    // eight characters, more than eight bytes
    let r = LoginRequest { email: "a@b.co".to_string(), password: "mậtkhẩuu".to_string() };
    assert!(r.validate().is_ok());
    let r = LoginRequest { email: "a@b.co".to_string(), password: "mậtkhẩu".to_string() };
    assert_eq!(report(&r.validate().unwrap_err())[0].0, "password");
}

#[test]
fn refresh_request_needs_ten_characters() {
    assert!(RefreshRequest { refresh_token: "0123456789".to_string() }.validate().is_ok());
    let e = RefreshRequest { refresh_token: "012345678".to_string() }.validate().unwrap_err();
    assert_eq!(
        report(&e),
        vec![(
            "refresh_token".to_string(),
            vec![("length".to_string(), Some("Refresh token không hợp lệ".to_string()))]
        )]
    );
}

#[test]
fn role_name_bounds() {
    let ok = CreateRoleRequest { name: "admin".to_string(), description: None, permission_ids: vec![] };
    assert!(ok.validate().is_ok());
    let empty = CreateRoleRequest { name: String::new(), description: None, permission_ids: vec![] };
    assert_eq!(
        report(&empty.validate().unwrap_err()),
        vec![(
            "name".to_string(),
            vec![("length".to_string(), Some("Tên vai trò không được bỏ trống.".to_string()))]
        )]
    );
    let long = CreateRoleRequest { name: "x".repeat(256), description: None, permission_ids: vec![] };
    assert!(long.validate().is_err());
    let max = CreateRoleRequest { name: "x".repeat(255), description: None, permission_ids: vec![] };
    assert!(max.validate().is_ok());
}

#[test]
fn role_description_without_message() {
    let r = CreateRoleRequest {
        name: "admin".to_string(),
        description: Some("d".repeat(501)),
        permission_ids: vec!["p1".to_string()],
    };
    assert_eq!(
        report(&r.validate().unwrap_err()),
        vec![("description".to_string(), vec![("length".to_string(), None)])]
    );
    let r = CreateRoleRequest { name: "admin".to_string(), description: Some("d".repeat(500)), permission_ids: vec![] };
    assert!(r.validate().is_ok());
}

#[test]
fn email_rule_of_validator_crate() {
    assert!(validate_email("email@here.com"));
    assert!(validate_email("email@[127.0.0.1]"));
    assert!(!validate_email(""));
    assert!(!validate_email("no-at-sign"));
    assert!(!validate_email("\"test@test\"@example.com"));
}

#[test]
fn length_rule_bounds() {
    assert!(validate_length("abc", Some(3), Some(3)));
    assert!(!validate_length("abc", Some(4), None));
    assert!(!validate_length("abc", None, Some(2)));
    assert!(validate_length("", None, None));
}

#[test]
fn validated_json_passes_valid_body() {
    let body = Ok(RefreshRequest { refresh_token: "0123456789abc".to_string() });
    match ValidatedJson::from_request(body) {
        Ok(ValidatedJson(r)) => assert_eq!(r.refresh_token, "0123456789abc"),
        Err(_) => panic!("expected acceptance"),
    }
}

#[test]
fn validated_json_refuses_unreadable_body() {
    let body: Result<RefreshRequest, JsonRejection> = Err(JsonRejection::SyntaxError);
    assert!(matches!(
        ValidatedJson::from_request(body),
        Err(AppError::AxumJsonRejection(JsonRejection::SyntaxError))
    ));
}

#[test]
fn validated_json_refuses_invalid_body() {
    let body = Ok(LoginRequest { email: "x".to_string(), password: "12345678".to_string() });
    match ValidatedJson::from_request(body) {
        Err(AppError::ValidationError(e)) => assert_eq!(report(&e).len(), 1),
        _ => panic!("expected a validation error"),
    }
}

#[test]
fn login_validation_given_email_outcome() {
    assert!(login_validation(true, "12345678").is_ok());
    let e = login_validation(false, "12345678").unwrap_err();
    assert_eq!(report(&e), vec![("email".to_string(), vec![("email".to_string(), Some(LOGIN_MSG.to_string()))])]);
    let e = login_validation(true, "1234567").unwrap_err();
    assert_eq!(report(&e)[0].0, "password");
}
