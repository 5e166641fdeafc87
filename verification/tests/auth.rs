use sutra_erp::auth::{
    bearer_token, check_current_user, check_login, hash_password, identity_of_claims,
    request_token, token_expiry, trim, validate_login, validate_registration, verify_password,
    AccessRefusal, AppUser, AuthError, AuthFailure, AuthRejection, Claims, LoginAccount,
    TOKEN_TTL_SECS,
};
use sutra_erp::identity::Timestamp;
use uuid::Uuid;

#[test]
fn hash_and_verify_roundtrip() {
    let hash = hash_password("Sutra@2026!secure").expect("hash should succeed");
    assert!(hash.starts_with("$argon2id$"), "expected argon2id PHC hash");
    assert!(verify_password("Sutra@2026!secure", &hash).expect("verify should not err"));
    assert!(!verify_password("wrong-password", &hash).expect("verify should not err"));
}

#[test]
fn hashes_are_unique_per_salt() {
    let a = hash_password("same-password").unwrap();
    let b = hash_password("same-password").unwrap();
    assert_ne!(a, b, "random salt must produce distinct hashes");
}

#[test]
fn verify_refuses_a_malformed_stored_hash() {
    match verify_password("anything", "not-a-phc-string") {
        Err(AuthError::Hashing(_)) => {}
        other => panic!("expected a hashing error, got {:?}", other),
    }
}

#[test]
fn claims_expire_a_day_after_issue() {
    let c = Claims::issue("user-1", "tenant-1", vec!["CFO".to_string()], 1_700_000_000);
    assert_eq!(c.sub, "user-1");
    assert_eq!(c.tenant_id, "tenant-1");
    assert_eq!(c.roles, vec!["CFO".to_string()]);
    assert_eq!(c.exp, 1_700_086_400);
    assert_eq!(TOKEN_TTL_SECS, 86_400);
    assert_eq!(token_expiry(0), 86_400);
}

#[test]
fn trim_removes_white_space_at_both_ends() {
    assert_eq!(trim("  abc \t\n"), "abc");
    assert_eq!(trim("\u{3000}x y\u{a0}"), "x y");
    assert_eq!(trim("   "), "");
    assert_eq!(trim("a"), "a");
}

#[test]
fn bearer_token_extraction() {
    assert_eq!(bearer_token("Bearer abc.def"), Some("abc.def"));
    assert_eq!(bearer_token("Bearer   tok  "), Some("tok"));
    assert_eq!(bearer_token("Bearer"), None);
    assert_eq!(bearer_token("Bearer "), None);
    assert_eq!(bearer_token("Bearer    "), None);
    assert_eq!(bearer_token("bearer abc"), None);
    assert_eq!(bearer_token("Basic abc"), None);
    assert_eq!(bearer_token("Bearer a b"), Some("a b"));
}

#[test]
fn request_token_reports_each_failure() {
    assert_eq!(request_token(None), Err(AuthFailure::MissingHeader));
    assert_eq!(request_token(Some(None)), Err(AuthFailure::MalformedHeader));
    assert_eq!(request_token(Some(Some("Token x"))), Err(AuthFailure::MalformedHeader));
    assert_eq!(request_token(Some(Some("Bearer x.y.z"))), Ok("x.y.z"));
    assert_eq!(AuthFailure::MissingHeader.message(), "missing Authorization header");
    assert_eq!(
        AuthFailure::MalformedHeader.message(),
        "malformed Authorization header — expected 'Bearer <token>'"
    );
    assert_eq!(AuthFailure::InvalidToken.message(), "invalid or expired token");
}

#[test]
fn rejection_without_auth_context_is_401() {
    assert_eq!(AuthRejection.status(), 401);
    assert_eq!(AuthRejection.message(), "unauthenticated");
}

#[test]
fn registration_input_checks() {
    assert_eq!(
        validate_registration("  Alice@Example.COM ", "Alice", "longenough"),
        Ok("alice@example.com".to_string())
    );
    assert_eq!(
        validate_registration("   ", "Alice", "longenough"),
        Err("a valid email is required")
    );
    assert_eq!(
        validate_registration("alice.example.com", "Alice", "longenough"),
        Err("a valid email is required")
    );
    assert_eq!(
        validate_registration("a@b.c", "  ", "longenough"),
        Err("full_name is required")
    );
    assert_eq!(
        validate_registration("a@b.c", "Alice", "short"),
        Err("password must be at least 8 characters")
    );
}

#[test]
fn login_input_checks() {
    assert_eq!(validate_login(" Bob@X.io", "pw"), Ok("bob@x.io".to_string()));
    assert_eq!(validate_login("", "pw"), Err("email and password are required"));
    assert_eq!(validate_login("bob@x.io", ""), Err("email and password are required"));
}

#[test]
fn login_decisions() {
    let hash = hash_password("correct horse").unwrap();
    let active = LoginAccount { password_hash: hash.clone(), is_active: true };
    let disabled = LoginAccount { password_hash: hash.clone(), is_active: false };
    assert_eq!(check_login("correct horse", &vec![active.clone()]).unwrap(), 0);
    let wrong = check_login("wrong horse", &vec![active.clone()]).unwrap_err();
    assert!(matches!(wrong, AccessRefusal::InvalidCredentials));
    assert_eq!(wrong.status(), 401);
    assert_eq!(wrong.message(), "invalid credentials");
    let none = check_login("x", &Vec::new()).unwrap_err();
    assert!(matches!(none, AccessRefusal::InvalidCredentials));
    let many = check_login("correct horse", &vec![active.clone(), active.clone()]).unwrap_err();
    assert!(matches!(many, AccessRefusal::AmbiguousEmail));
    assert_eq!(many.message(), "email exists in multiple tenants — please provide tenant_id");
    let off = check_login("correct horse", &vec![disabled]).unwrap_err();
    assert_eq!(off.status(), 403);
    assert_eq!(off.message(), "account is disabled");
    let broken = LoginAccount { password_hash: "garbage".to_string(), is_active: true };
    let failed = check_login("x", &vec![broken]).unwrap_err();
    assert_eq!(failed.status(), 500);
    assert!(failed.message().starts_with("password hashing error: "));
}

#[test]
fn current_user_decisions() {
    assert!(check_current_user(Some(true)).is_ok());
    let gone = check_current_user(None).unwrap_err();
    assert_eq!((gone.status(), gone.message()), (401, "user no longer exists".to_string()));
    let off = check_current_user(Some(false)).unwrap_err();
    assert_eq!(off.status(), 403);
}

#[test]
fn token_identity_from_claims() {
    let u = Uuid::new_v4();
    let t = Uuid::new_v4();
    let claims = Claims::issue(&u.to_string(), &t.to_string(), vec!["CFO".to_string()], 0);
    let (uid, tid, roles) = identity_of_claims(claims).unwrap();
    assert_eq!((uid, tid), (u, t));
    assert_eq!(roles, vec!["CFO".to_string()]);
    let bad_sub = Claims::issue("nope", &t.to_string(), vec![], 0);
    match identity_of_claims(bad_sub) {
        Err(AuthError::InvalidClaim(m)) => assert_eq!(m, "malformed sub (user id)"),
        other => panic!("unexpected {:?}", other),
    }
    let bad_tenant = Claims::issue(&u.to_string(), "nope", vec![], 0);
    match identity_of_claims(bad_tenant) {
        Err(AuthError::InvalidClaim(m)) => assert_eq!(m, "malformed tenant_id"),
        other => panic!("unexpected {:?}", other),
    }
}

#[test]
fn auth_error_texts() {
    assert_eq!(AuthError::MissingSecret.to_string(), "JWT_SECRET environment variable is not set");
    assert_eq!(AuthError::Hashing("x".into()).to_string(), "password hashing error: x");
    assert_eq!(AuthError::InvalidToken("y".into()).to_string(), "invalid token: y");
    assert_eq!(AuthError::TokenExpired.to_string(), "token has expired");
    assert_eq!(AuthError::InvalidClaim("z".into()).to_string(), "token claim error: z");
}

#[test]
fn user_info_carries_no_hash() {
    let user = AppUser {
        id: Uuid::new_v4(),
        tenant_id: Uuid::new_v4(),
        email: "a@b.c".to_string(),
        password_hash: "$argon2id$...".to_string(),
        full_name: "A B".to_string(),
        is_active: true,
        is_superadmin: false,
        last_login_at: None,
        created_at: Timestamp { micros: 0 },
    };
    let info = user.to_user_info(vec!["Accountant".to_string()]);
    assert_eq!(info.id, user.id);
    assert_eq!(info.tenant_id, user.tenant_id);
    assert_eq!(info.email, "a@b.c");
    assert_eq!(info.full_name, "A B");
    assert_eq!(info.roles, vec!["Accountant".to_string()]);
}
