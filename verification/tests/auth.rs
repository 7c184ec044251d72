use taskboard::auth::login::{claims_for, login, Claims, LoginResponse, TOKEN_LIFETIME};
use taskboard::auth::me::{me, MeResponse};
use taskboard::auth::protect::protected_route;
use taskboard::auth::signup::{signup, signup_with_salt};
use taskboard::auth::utils::{
    extract_bearer, hash_password, hash_password_with_salt, username_exists, validate, AuthError, LoginRequest,
};
use taskboard::boards::utils::DbError;
use taskboard::flow::{Outcome, Request, Step};
use taskboard::http::StatusCode;
use taskboard::text::decimal_string;

fn db_err(msg: &str) -> DbError {
    DbError { message: msg.to_string() }
}

fn creds(user: &str, pw: &str) -> LoginRequest {
    LoginRequest { username: user.to_string(), password: pw.to_string() }
}

#[test]
fn bearer_without_claims_is_invalid() {
    assert_eq!(extract_bearer(None, 100), Err(AuthError::InvalidToken));
}

#[test]
fn bearer_expired_is_refused() {
    let c = Claims { sub: 3, exp: 99 };
    assert_eq!(extract_bearer(Some(c), 100), Err(AuthError::ExpiredToken));
}

#[test]
fn bearer_valid_until_exp() {
    let c = Claims { sub: 3, exp: 100 };
    assert_eq!(extract_bearer(Some(c), 100), Ok(3));
    assert_eq!(extract_bearer(Some(c), 40), Ok(3));
}

#[test]
fn login_token_lives_one_hour() {
    let c = claims_for(9, 1_000);
    assert_eq!(c, Claims { sub: 9, exp: 4_600 });
    assert_eq!(TOKEN_LIFETIME, 3600);
    assert_eq!(extract_bearer(Some(c), 1_000), Ok(9));
    assert_eq!(extract_bearer(Some(c), 4_600), Ok(9));
    assert_eq!(extract_bearer(Some(c), 4_601), Err(AuthError::ExpiredToken));
}

#[test]
fn protected_route_greets_user() {
    let c = Claims { sub: 42, exp: 500 };
    assert_eq!(protected_route(Some(c), 10), Ok("Protected route accessed by user ID: 42".to_string()));
    let c = Claims { sub: -7, exp: 500 };
    assert_eq!(protected_route(Some(c), 10), Ok("Protected route accessed by user ID: -7".to_string()));
}

#[test]
fn protected_route_refuses_bad_tokens() {
    assert_eq!(protected_route(None, 10), Err(StatusCode::UNAUTHORIZED));
    let c = Claims { sub: 42, exp: 5 };
    assert_eq!(protected_route(Some(c), 10), Err(StatusCode::UNAUTHORIZED));
}

#[test]
fn hashed_password_validates() {
    let hash = hash_password("s3cr3tP@ssw0rd").unwrap();
    assert!(hash.starts_with("$argon2id$"));
    assert_eq!(validate("alice", "s3cr3tP@ssw0rd", Ok(Some(hash.clone()))), Ok(true));
    assert_eq!(validate("alice", "wrong password", Ok(Some(hash))), Ok(false));
}

#[test]
fn hashing_twice_uses_different_salts() {
    let a = hash_password("same").unwrap();
    let b = hash_password("same").unwrap();
    assert_ne!(a, b);
}

#[test]
fn hash_with_salt_is_deterministic() {
    let salt = [7u8; 16];
    let a = hash_password_with_salt("pw", &salt).unwrap();
    let b = hash_password_with_salt("pw", &salt).unwrap();
    assert_eq!(a, b);
    assert_eq!(validate("bob", "pw", Ok(Some(a))), Ok(true));
}

#[test]
fn hash_with_short_salt_fails() {
    assert_eq!(hash_password_with_salt("pw", &[1u8, 2, 3, 4]), Err("Failed to hash password".to_string()));
}

#[test]
fn validate_errors() {
    assert_eq!(validate("alice", "pw", Ok(None)), Err("User not found".to_string()));
    assert_eq!(validate("alice", "pw", Err(db_err("locked"))), Err("Failed to validate user".to_string()));
    assert_eq!(
        validate("alice", "pw", Ok(Some("not a hash".to_string()))),
        Err("Failed to verify password".to_string())
    );
}

#[test]
fn username_exists_counts() {
    assert_eq!(username_exists(Ok(0)), Ok(false));
    assert_eq!(username_exists(Ok(1)), Ok(true));
    assert_eq!(username_exists(Ok(3)), Ok(true));
    assert_eq!(username_exists(Err(db_err("x"))), Err("Failed to check existing username".to_string()));
}

fn login_error(step: Step<(StatusCode, LoginResponse)>) -> (StatusCode, String) {
    match step {
        Step::Respond((code, LoginResponse::Error(msg))) => (code, msg),
        _ => panic!("expected an error answer"),
    }
}

#[test]
fn login_happy_path() {
    let p = creds("alice", "pw");
    assert_eq!(login(&p, &[]), Step::Perform(Request::FindUser { username: "alice".to_string() }));
    let mut t = vec![Outcome::UserFound(Ok(5))];
    assert_eq!(
        login(&p, &t),
        Step::Perform(Request::ValidateCredentials { username: "alice".to_string(), password: "pw".to_string() })
    );
    t.push(Outcome::Validated(Ok(true)));
    assert_eq!(login(&p, &t), Step::Perform(Request::ReadClock));
    t.push(Outcome::Clock(1_000));
    assert_eq!(login(&p, &t), Step::Perform(Request::ReadSecret));
    t.push(Outcome::Secret(Some("k".to_string())));
    assert_eq!(
        login(&p, &t),
        Step::Perform(Request::IssueToken { claims: Claims { sub: 5, exp: 4_600 }, secret: "k".to_string() })
    );
    t.push(Outcome::Token(Some("tok".to_string())));
    assert_eq!(login(&p, &t), Step::Respond((StatusCode::OK, LoginResponse::Token("tok".to_string()))));
}

#[test]
fn login_unknown_user() {
    let p = creds("alice", "pw");
    let t = vec![Outcome::UserFound(Err(db_err("RowNotFound")))];
    assert_eq!(login_error(login(&p, &t)), (StatusCode::NOT_FOUND, "User does not exist".to_string()));
}

#[test]
fn login_wrong_password() {
    let p = creds("alice", "pw");
    let t = vec![Outcome::UserFound(Ok(5)), Outcome::Validated(Ok(false))];
    assert_eq!(login_error(login(&p, &t)), (StatusCode::UNAUTHORIZED, "Invalid credentials".to_string()));
}

#[test]
fn login_validation_error() {
    let p = creds("alice", "pw");
    let t = vec![Outcome::UserFound(Ok(5)), Outcome::Validated(Err("User not found".to_string()))];
    assert_eq!(login_error(login(&p, &t)), (StatusCode::INTERNAL_SERVER_ERROR, "Error validating user".to_string()));
}

#[test]
fn login_missing_secret() {
    let p = creds("alice", "pw");
    let t = vec![Outcome::UserFound(Ok(5)), Outcome::Validated(Ok(true)), Outcome::Clock(0), Outcome::Secret(None)];
    assert_eq!(login_error(login(&p, &t)), (StatusCode::INTERNAL_SERVER_ERROR, "Server configuration error".to_string()));
}

#[test]
fn login_token_failure() {
    let p = creds("alice", "pw");
    let t = vec![
        Outcome::UserFound(Ok(5)),
        Outcome::Validated(Ok(true)),
        Outcome::Clock(0),
        Outcome::Secret(Some("k".to_string())),
        Outcome::Token(None),
    ];
    assert_eq!(login_error(login(&p, &t)), (StatusCode::INTERNAL_SERVER_ERROR, "Failed to create token".to_string()));
}

#[test]
fn login_unexpected_outcome() {
    let p = creds("alice", "pw");
    assert_eq!(login(&p, &[Outcome::Clock(3)]), Step::Unexpected);
}

#[test]
fn signup_happy_path() {
    let p = creds("carol", "hunter2");
    assert_eq!(signup(&p, &[]), Step::Perform(Request::CountUsername { username: "carol".to_string() }));
    let t = vec![Outcome::UsernameCount(Ok(0))];
    let hash = match signup(&p, &t) {
        Step::Perform(Request::InsertUser { username, password_hash }) => {
            assert_eq!(username, "carol");
            password_hash
        },
        other => panic!("unexpected step {:?}", other),
    };
    assert_eq!(validate("carol", "hunter2", Ok(Some(hash))), Ok(true));
    let t = vec![Outcome::UsernameCount(Ok(0)), Outcome::Done(Ok(()))];
    assert_eq!(signup(&p, &t), Step::Respond((StatusCode::CREATED, "User created successfully".to_string())));
}

#[test]
fn signup_with_salt_stores_that_hash() {
    let p = creds("carol", "hunter2");
    let salt = [3u8; 16];
    let t = vec![Outcome::UsernameCount(Ok(0))];
    let expected = hash_password_with_salt("hunter2", &salt).unwrap();
    assert_eq!(
        signup_with_salt(&p, &t, &salt),
        Step::Perform(Request::InsertUser { username: "carol".to_string(), password_hash: expected })
    );
}

#[test]
fn signup_taken_name() {
    let p = creds("carol", "hunter2");
    let t = vec![Outcome::UsernameCount(Ok(1))];
    assert_eq!(signup(&p, &t), Step::Respond((StatusCode::CONFLICT, "Username already exists".to_string())));
}

#[test]
fn signup_count_failure_counts_as_taken() {
    let p = creds("carol", "hunter2");
    let t = vec![Outcome::UsernameCount(Err(db_err("busy")))];
    assert_eq!(signup(&p, &t), Step::Respond((StatusCode::CONFLICT, "Username already exists".to_string())));
}

#[test]
fn signup_hash_failure() {
    let p = creds("carol", "hunter2");
    let t = vec![Outcome::UsernameCount(Ok(0))];
    assert_eq!(
        signup_with_salt(&p, &t, &[1u8, 2]),
        Step::Respond((StatusCode::INTERNAL_SERVER_ERROR, "Failed to hash password".to_string()))
    );
}

#[test]
fn signup_insert_failure() {
    let p = creds("carol", "hunter2");
    let t = vec![Outcome::UsernameCount(Ok(0)), Outcome::Done(Err(db_err("UNIQUE constraint failed")))];
    assert_eq!(signup(&p, &t), Step::Respond((StatusCode::INTERNAL_SERVER_ERROR, "Failed to create user".to_string())));
}

#[test]
fn me_flow() {
    assert_eq!(me(&[]), Step::Perform(Request::Authenticate));
    let c = Claims { sub: 11, exp: 100 };
    let t = vec![Outcome::Bearer { claims: Some(c), now: 50 }];
    assert_eq!(me(&t), Step::Perform(Request::UsernameById { user_id: 11 }));
    let t = vec![Outcome::Bearer { claims: Some(c), now: 50 }, Outcome::Username(Ok("dave".to_string()))];
    assert_eq!(me(&t), Step::Respond(Ok(MeResponse { id: 11, username: "dave".to_string() })));
    let t = vec![Outcome::Bearer { claims: Some(c), now: 50 }, Outcome::Username(Err(db_err("gone")))];
    assert_eq!(me(&t), Step::Respond(Err(StatusCode::INTERNAL_SERVER_ERROR)));
}

#[test]
fn me_refuses_bad_tokens() {
    let t = vec![Outcome::Bearer { claims: None, now: 50 }];
    assert_eq!(me(&t), Step::Respond(Err(StatusCode::UNAUTHORIZED)));
    let t = vec![Outcome::Bearer { claims: Some(Claims { sub: 1, exp: 10 }), now: 50 }];
    assert_eq!(me(&t), Step::Respond(Err(StatusCode::UNAUTHORIZED)));
}

#[test]
fn hash_begins_with_default_head() {
    let hash = hash_password("correct horse").unwrap();
    assert!(hash.starts_with("$argon2"));
    assert!(hash.starts_with("$argon2id$v=19$m=19456,t=2,p=1$"));
    let salted = hash_password_with_salt("correct horse", &[9u8; 8]).unwrap();
    assert!(salted.starts_with("$argon2id$v=19$m=19456,t=2,p=1$"));
    assert_ne!(salted, "correct horse");
}

#[test]
fn signup_then_login_issues_token() {
    let p = creds("dave", "p4ss");
    let stored = match signup(&p, &[Outcome::UsernameCount(Ok(0))]) {
        Step::Perform(Request::InsertUser { username, password_hash }) => {
            assert_eq!(username, "dave");
            password_hash
        },
        other => panic!("unexpected step {:?}", other),
    };
    let checked = validate("dave", "p4ss", Ok(Some(stored)));
    assert_eq!(checked, Ok(true));
    let t = vec![
        Outcome::UserFound(Ok(12)),
        Outcome::Validated(checked),
        Outcome::Clock(100),
        Outcome::Secret(Some("s".to_string())),
    ];
    assert_eq!(
        login(&p, &t),
        Step::Perform(Request::IssueToken { claims: Claims { sub: 12, exp: 3_700 }, secret: "s".to_string() })
    );
    let mut t = t;
    t.push(Outcome::Token(Some("jwt".to_string())));
    assert_eq!(login(&p, &t), Step::Respond((StatusCode::OK, LoginResponse::Token("jwt".to_string()))));
}

#[test]
fn login_answers_ok_only_with_token() {
    let p = creds("erin", "pw");
    let refusals = [
        vec![Outcome::UserFound(Err(db_err("no rows")))],
        vec![Outcome::UserFound(Ok(1)), Outcome::Validated(Ok(false))],
        vec![Outcome::UserFound(Ok(1)), Outcome::Validated(Err("x".to_string()))],
        vec![Outcome::UserFound(Ok(1)), Outcome::Validated(Ok(true)), Outcome::Clock(0), Outcome::Secret(None)],
    ];
    for t in refusals.iter() {
        match login(&p, t) {
            Step::Respond((code, LoginResponse::Error(_))) => assert_ne!(code, StatusCode::OK),
            other => panic!("unexpected step {:?}", other),
        }
    }
}

#[test]
fn decimal_text_of_numbers() {
    assert_eq!(decimal_string(0), "0");
    assert_eq!(decimal_string(7), "7");
    assert_eq!(decimal_string(1234567890), "1234567890");
    assert_eq!(decimal_string(-42), "-42");
    assert_eq!(decimal_string(i64::MAX), i64::MAX.to_string());
    assert_eq!(decimal_string(i64::MIN), i64::MIN.to_string());
}
