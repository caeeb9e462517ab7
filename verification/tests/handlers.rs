use taskbind::auth::{get_user_by_id, login, register, register_with, LoginRequest, RegisterRequest};
use taskbind::errors::AppError;
use taskbind::store::Store;

fn reg(username: &str, email: &str, password: &str, role: &str) -> RegisterRequest {
    RegisterRequest {
        username: username.to_string(),
        email: email.to_string(),
        password: password.to_string(),
        role: role.to_string(),
    }
}

#[test]
fn register_rejects_unknown_role() {
    let mut store = Store::new();
    let r = register(&mut store, reg("alice", "alice@example.com", "pw", "admin"));
    assert_eq!(r.err().unwrap(), AppError::Validation);
    assert_eq!(store.users.len(), 0);

    let r = register(&mut store, reg("alice", "alice@example.com", "pw", ""));
    assert_eq!(r.err().unwrap(), AppError::Validation);
    assert_eq!(store.users.len(), 0);
}

#[test]
fn register_conflict_on_duplicate_email() {
    let mut store = Store::new();
    let first = register_with(
        &mut store,
        &reg("alice", "alice@example.com", "pw", "creator"),
        "id-1".to_string(),
        "hash-1".to_string(),
        1_000,
    );
    assert!(first.is_ok());

    let second = register_with(
        &mut store,
        &reg("bob", "alice@example.com", "pw", "executor"),
        "id-2".to_string(),
        "hash-2".to_string(),
        2_000,
    );
    assert_eq!(second.err().unwrap(), AppError::Conflict);

    let rows = store.users.iter().filter(|u| u.email == "alice@example.com").count();
    assert_eq!(rows, 1);
    assert_eq!(store.users.len(), 1);
}

#[test]
fn register_conflict_on_duplicate_username() {
    let mut store = Store::new();
    register_with(
        &mut store,
        &reg("alice", "alice@example.com", "pw", "creator"),
        "id-1".to_string(),
        "hash-1".to_string(),
        1_000,
    )
    .ok()
    .unwrap();

    let second = register_with(
        &mut store,
        &reg("alice", "other@example.com", "pw", "creator"),
        "id-2".to_string(),
        "hash-2".to_string(),
        2_000,
    );
    assert_eq!(second.err().unwrap(), AppError::Conflict);

    let rows = store.users.iter().filter(|u| u.username == "alice").count();
    assert_eq!(rows, 1);
}

#[test]
fn password_verifies_after_registration() {
    let mut store = Store::new();
    let created = register(&mut store, reg("alice", "alice@example.com", "s3cret", "creator"))
        .ok()
        .unwrap();

    let logged = login(
        &store,
        LoginRequest { email: "alice@example.com".to_string(), password: "s3cret".to_string() },
    )
    .ok()
    .unwrap();
    assert_eq!(logged.user.id, created.id);
    assert_eq!(logged.user.username, "alice");
    assert_eq!(logged.user.email, "alice@example.com");
    assert_eq!(logged.user.role, "creator");
}

#[test]
fn wrong_password_fails_login() {
    let mut store = Store::new();
    register(&mut store, reg("alice", "alice@example.com", "s3cret", "creator")).ok().unwrap();

    let r = login(
        &store,
        LoginRequest { email: "alice@example.com".to_string(), password: "s3cret2".to_string() },
    );
    assert_eq!(r.err().unwrap(), AppError::Auth);
}

#[test]
fn login_error_identical_for_wrong_password_and_unknown_email() {
    let mut store = Store::new();
    register(&mut store, reg("alice", "alice@example.com", "s3cret", "creator")).ok().unwrap();

    let wrong_password = login(
        &store,
        LoginRequest { email: "alice@example.com".to_string(), password: "nope".to_string() },
    )
    .err()
    .unwrap();
    let unknown_email = login(
        &store,
        LoginRequest { email: "nobody@example.com".to_string(), password: "s3cret".to_string() },
    )
    .err()
    .unwrap();
    assert_eq!(wrong_password, unknown_email);
    assert_eq!(wrong_password, AppError::Auth);
}

#[test]
fn stored_hash_is_bcrypt_not_plaintext() {
    let mut store = Store::new();
    register(&mut store, reg("alice", "alice@example.com", "s3cret", "creator")).ok().unwrap();
    let hash = &store.users[0].password_hash;
    assert_ne!(hash, "s3cret");
    assert!(hash.starts_with("$2"));
}

#[test]
fn get_user_by_id_returns_public_fields() {
    let mut store = Store::new();
    register_with(
        &mut store,
        &reg("alice", "alice@example.com", "pw", "executor"),
        "id-1".to_string(),
        "hash-1".to_string(),
        0,
    )
    .ok()
    .unwrap();

    let u = get_user_by_id(&store, "id-1").ok().unwrap();
    assert_eq!(u.id, "id-1");
    assert_eq!(u.username, "alice");
    assert_eq!(u.email, "alice@example.com");
    assert_eq!(u.role, "executor");

    let missing = get_user_by_id(&store, "id-2");
    assert_eq!(missing.err().unwrap(), AppError::NotFound);
}

#[test]
fn epoch_timestamp_renders_rfc3339() {
    let mut store = Store::new();
    let created = register_with(
        &mut store,
        &reg("alice", "alice@example.com", "pw", "creator"),
        "id-1".to_string(),
        "hash-1".to_string(),
        0,
    )
    .ok()
    .unwrap();
    assert_eq!(created.created_at, "1970-01-01T00:00:00+00:00");

    let later = register_with(
        &mut store,
        &reg("bob", "bob@example.com", "pw", "creator"),
        "id-2".to_string(),
        "hash-2".to_string(),
        1_500,
    )
    .ok()
    .unwrap();
    assert_eq!(later.created_at, "1970-01-01T00:00:01.500+00:00");
}

#[test]
fn status_codes_match_http_taxonomy() {
    assert_eq!(AppError::Validation.status_code(), 400);
    assert_eq!(AppError::Auth.status_code(), 401);
    assert_eq!(AppError::NotFound.status_code(), 404);
    assert_eq!(AppError::Conflict.status_code(), 409);
    assert_eq!(AppError::Internal.status_code(), 500);
}

#[test]
fn registered_id_is_hyphenated_uuid() {
    let mut store = Store::new();
    let created = register(&mut store, reg("alice", "alice@example.com", "pw", "creator"))
        .ok()
        .unwrap();
    let id: Vec<char> = created.id.chars().collect();
    assert_eq!(id.len(), 36);
    for (i, c) in id.iter().enumerate() {
        if i == 8 || i == 13 || i == 18 || i == 23 {
            assert_eq!(*c, '-');
        } else {
            assert!(c.is_ascii_hexdigit() && !c.is_ascii_uppercase());
        }
    }
}
