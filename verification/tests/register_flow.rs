use auth_lib::auth::password::{hash_password, verify_password};
use auth_lib::auth::register::{
    register_step, validate_email, validate_password, RegisterAction, RegisterEvent, RegisterState,
};
use auth_lib::model::common::Timestamp;
use auth_lib::model::user::{NewUser, RegisterRequest, RegisterResponse, User, UserWithRoles};
use auth_lib::utils::errors::AuthError;

fn request(email: &str, password: &str, username: Option<&str>) -> RegisterRequest {
    RegisterRequest {
        email: email.into(),
        password: password.into(),
        username: username.map(|u| u.into()),
        first_name: None,
        last_name: None,
    }
}

fn valid_request() -> RegisterRequest {
    RegisterRequest {
        email: "alice@example.com".into(),
        password: "S3cur3P@ssw0rd!".into(),
        username: Some("alice".into()),
        first_name: Some("Alice".into()),
        last_name: Some("Smith".into()),
    }
}

fn stored(nu: &NewUser) -> User {
    User {
        id: uuid::Uuid::from_u128(7),
        email: nu.email.clone(),
        password_hash: Some(nu.password_hash.clone()),
        jwt_secret: Some(nu.jwt_secret.clone()),
        username: nu.username.clone(),
        first_name: nu.first_name.clone(),
        last_name: nu.last_name.clone(),
        avatar_url: None,
        is_active: true,
        is_verified: false,
        created_at: Timestamp { micros: 0 },
        updated_at: Timestamp { micros: 0 },
    }
}

/// An in-memory stand-in for the users table, recording the calls made.
#[derive(Default)]
struct Store {
    emails: Vec<String>,
    usernames: Vec<String>,
    calls: Vec<String>,
}

impl Store {
    /// Drive one registration to its end, answering each question.
    fn register(&mut self, req: RegisterRequest) -> Result<User, AuthError> {
        let mut state = RegisterState::Start(req);
        let mut event = RegisterEvent::Begin;
        loop {
            let (next, action) = register_step(state, event);
            state = next;
            event = match action {
                RegisterAction::CheckEmail(e) => {
                    self.calls.push(format!("email:{e}"));
                    RegisterEvent::Exists(self.emails.contains(&e))
                }
                RegisterAction::CheckUsername(u) => {
                    self.calls.push(format!("username:{u}"));
                    RegisterEvent::Exists(self.usernames.contains(&u))
                }
                RegisterAction::Create(nu) => {
                    self.calls.push(format!("create:{}", nu.email));
                    self.emails.push(nu.email.clone());
                    if let Some(u) = &nu.username {
                        self.usernames.push(u.clone());
                    }
                    RegisterEvent::Created(stored(&nu))
                }
                RegisterAction::Respond(r) => return r,
            };
        }
    }
}

#[test]
fn registration_test_test_register_success() {
    let mut store = Store::default();
    let user = store.register(valid_request()).expect("Registration should succeed");
    assert_eq!(store.calls, vec!["email:alice@example.com", "username:alice", "create:alice@example.com"]);
    assert!(!user.id.to_string().is_empty());
    assert_eq!(user.email, "alice@example.com");
    assert_eq!(user.username.as_deref(), Some("alice"));
    assert_eq!(user.first_name.as_deref(), Some("Alice"));
    assert_eq!(user.last_name.as_deref(), Some("Smith"));
    assert!(user.is_active);
    assert!(!user.is_verified);
    let hash = user.password_hash.expect("password_hash must be stored");
    assert_ne!(hash, "S3cur3P@ssw0rd!");
    assert!(hash.starts_with("$argon2id$v=19$"), "got {hash}");
    let secret = user.jwt_secret.clone().expect("jwt_secret must be stored");
    assert_eq!(secret.len(), 36);
    for (i, c) in secret.chars().enumerate() {
        if [8, 13, 18, 23].contains(&i) {
            assert_eq!(c, '-');
        } else {
            assert!(c.is_ascii_digit() || ('a'..='f').contains(&c), "{secret}");
        }
    }
    assert_eq!(secret.chars().nth(14), Some('4'));
    assert!(matches!(secret.chars().nth(19), Some('8' | '9' | 'a' | 'b')));
    assert_eq!(verify_password("S3cur3P@ssw0rd!", &hash).unwrap(), true);
    assert_eq!(verify_password("wrong-password", &hash).unwrap(), false);
}

#[test]
fn registration_test_test_register_minimal_fields() {
    let mut store = Store::default();
    let user = store
        .register(request("minimal@example.com", "ValidP@ss1", None))
        .expect("Registration with only email+password should succeed");
    assert_eq!(store.calls, vec!["email:minimal@example.com", "create:minimal@example.com"]);
    assert_eq!(user.email, "minimal@example.com");
    assert!(user.username.is_none());
    assert!(user.first_name.is_none());
    assert!(user.last_name.is_none());
}

#[test]
fn registration_test_test_register_duplicate_email() {
    let mut store = Store::default();
    let req = || request("dup@example.com", "ValidP@ss1", None);
    store.register(req()).expect("First registration should succeed");
    let err = store.register(req()).expect_err("Second registration with same email must fail");
    assert!(matches!(err, AuthError::EmailAlreadyTaken));
    assert!(err.message().to_lowercase().contains("email"));
}

#[test]
fn registration_test_test_register_duplicate_username() {
    let mut store = Store::default();
    store
        .register(request("user_a@example.com", "ValidP@ss1", Some("taken_name")))
        .expect("First registration should succeed");
    let err = store
        .register(request("user_b@example.com", "ValidP@ss1", Some("taken_name")))
        .expect_err("Registration with duplicate username must fail");
    assert!(matches!(err, AuthError::UsernameAlreadyTaken));
    assert!(err.message().to_lowercase().contains("username"));
    assert_eq!(store.emails, vec!["user_a@example.com"]);
}

fn rejected_before_storage(req: RegisterRequest) -> AuthError {
    let mut store = Store::default();
    let err = store.register(req).expect_err("must be rejected");
    assert!(store.calls.is_empty());
    err
}

#[test]
fn registration_test_test_register_empty_email_rejected() {
    let err = rejected_before_storage(request("", "ValidP@ss1", None));
    assert!(matches!(err, AuthError::InvalidEmail(_)));
    assert!(err.message().to_lowercase().contains("email"));
}

#[test]
fn registration_test_test_register_malformed_email_rejected() {
    let err = rejected_before_storage(request("not-an-email", "ValidP@ss1", None));
    assert!(matches!(err, AuthError::InvalidEmail(_)));
    assert!(err.message().to_lowercase().contains("email"));
}

#[test]
fn test_register_whitespace_email_rejected() {
    let err = rejected_before_storage(request("   ", "ValidP@ss1", None));
    assert!(err.message().to_lowercase().contains("email"));
}

#[test]
fn registration_test_test_register_empty_password_rejected() {
    let err = rejected_before_storage(request("pw_test@example.com", "", None));
    assert!(matches!(err, AuthError::WeakPassword(_)));
    assert!(err.message().to_lowercase().contains("password"));
}

#[test]
fn registration_test_test_register_short_password_rejected() {
    let err = rejected_before_storage(request("short_pw@example.com", "abc", None));
    assert!(matches!(err, AuthError::WeakPassword(_)));
    assert!(err.message().to_lowercase().contains("password"));
}

#[test]
fn storage_failures_are_passed_on() {
    let (s, a) = register_step(RegisterState::Start(request("a@b.co", "ValidP@ss1", None)), RegisterEvent::Begin);
    assert!(matches!(a, RegisterAction::CheckEmail(ref e) if e == "a@b.co"));
    let (s, a) = register_step(s, RegisterEvent::Failed(AuthError::DatabaseError("down".into())));
    assert!(matches!(s, RegisterState::Done));
    assert!(matches!(a, RegisterAction::Respond(Err(AuthError::DatabaseError(ref m))) if m == "down"));
}

#[test]
fn email_validation_cases() {
    assert!(validate_email("a@b.c").is_ok());
    assert!(validate_email("first.last@sub.example.org").is_ok());
    assert!(validate_email("a@@b.c").is_ok());
    for bad in ["", "@b.c", "a@", "a@bc", "a@.bc", "a@bc.", "nobody"] {
        match validate_email(bad) {
            Err(AuthError::InvalidEmail(m)) => assert_eq!(m, format!("'{bad}' is not a valid email address")),
            other => panic!("{bad:?} gave {other:?}"),
        }
    }
}

#[test]
fn password_validation_cases() {
    fn reason(p: &str) -> Option<String> {
        match validate_password(p) {
            Ok(()) => None,
            Err(AuthError::WeakPassword(r)) => Some(r),
            Err(e) => panic!("unexpected {e:?}"),
        }
    }
    assert_eq!(reason("Abcdefg1"), None);
    assert_eq!(reason("Abcdef1").as_deref(), Some("must be at least 8 characters"));
    assert_eq!(reason("abcdefg1").as_deref(), Some("must contain at least one uppercase letter"));
    assert_eq!(reason("Abcdefgh").as_deref(), Some("must contain at least one digit"));
    // Eight bytes suffice even with fewer characters; uppercase is Unicode.
    assert_eq!(reason("Éééé1"), None);
    assert_eq!(reason("éééé1").as_deref(), Some("must contain at least one uppercase letter"));
}

#[test]
fn malformed_stored_hash_is_reported() {
    for stored in ["", "plain", "argon2id$v=19"] {
        match verify_password("x", stored) {
            Err(AuthError::HashingError(m)) => assert!(m.starts_with("malformed hash in database: ")),
            other => panic!("{stored:?} gave {other:?}"),
        }
    }
}

#[test]
fn responses_and_role_views_keep_the_user_fields() {
    let nu = NewUser {
        email: "r@example.com".into(),
        password_hash: "$argon2id$v=19$x".into(),
        jwt_secret: "s".into(),
        username: Some("r".into()),
        first_name: None,
        last_name: None,
    };
    let resp = RegisterResponse::from_user(stored(&nu));
    assert_eq!(resp.user_id, uuid::Uuid::from_u128(7));
    assert_eq!(resp.email, "r@example.com");
    assert_eq!(resp.username.as_deref(), Some("r"));
    let with = UserWithRoles::new(stored(&nu), Vec::new());
    assert_eq!(with.email, "r@example.com");
    assert!(with.is_active);
    assert_eq!(with.roles.map(|r| r.len()), Some(0));
}

#[test]
fn hashing_succeeds_and_every_password_gets_an_answer() {
    let h = hash_password("").expect("a password within the limit hashes");
    assert!(h.starts_with("$argon2id$v=19$"), "{h}");
    assert_eq!(verify_password("ünïcödé", &h).unwrap(), false);
}
