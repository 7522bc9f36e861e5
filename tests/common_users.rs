use identity_server::domain::{User, UserResource, UserRole};
use identity_server::errors::{AuthError, ErrorKind};
use identity_server::dto::BooleanResponse;
use identity_server::identity::credentials::derive_password_hash;
use identity_server::identity::Identity;
use identity_server::identity::personnel::parse_personnel_nr;

const SALT: &str = "c2FsdHNhbHRzYWx0c2FsdA==";

fn user_with(nr: i16, password: &str) -> User {
    let hash = derive_password_hash(password, SALT).expect("salt is base64");
    User {
        personnel_nr: nr,
        salt: SALT.to_string(),
        password: hash,
        password_expiration_date: 800_000,
        username: format!("user{}", nr),
        account_disabled: false,
        date_dismiss: None,
        telefon: Some("0700000000".to_string()),
        email: None,
    }
}

#[test]
fn derived_hash_verifies_its_password() {
    let identity = Identity::new();
    let hash = identity.generate_password_hash("secret", SALT).unwrap();
    assert_eq!(hash.len(), 44);
    assert_ne!(hash, "secret");
    assert_ne!(hash, SALT);
    assert!(identity_server::identity::credentials::verify_password(SALT, &hash, "secret").is_ok());
}

#[test]
fn single_bit_change_of_password_is_rejected() {
    let hash = derive_password_hash("secret", SALT).unwrap();
    // 's' is 0x73; 'r' is 0x72
    let r = identity_server::identity::credentials::verify_password(SALT, &hash, "secrer");
    assert_eq!(r, Err(AuthError::InvalidCredentials));
    let r = identity_server::identity::credentials::verify_password(SALT, &hash, "Secret");
    assert_eq!(r, Err(AuthError::InvalidCredentials));
}

#[test]
fn derivation_depends_on_salt() {
    let a = derive_password_hash("secret", SALT).unwrap();
    let b = derive_password_hash("secret", "b3RoZXJzYWx0").unwrap();
    assert_ne!(a, b);
    assert_eq!(a, derive_password_hash("secret", SALT).unwrap());
}

#[test]
fn malformed_salt_or_hash_is_a_mismatch() {
    assert!(derive_password_hash("secret", "not base64!").is_none());
    let hash = derive_password_hash("secret", SALT).unwrap();
    let r = identity_server::identity::credentials::verify_password("not base64!", &hash, "secret");
    assert_eq!(r, Err(AuthError::InvalidCredentials));
    let r = identity_server::identity::credentials::verify_password(SALT, "%%%", "secret");
    assert_eq!(r, Err(AuthError::InvalidCredentials));
    let r = identity_server::identity::credentials::verify_password(SALT, "", "secret");
    assert_eq!(r, Err(AuthError::InvalidCredentials));
}

#[test]
fn login_policy_checks_in_order() {
    let identity = Identity::new();
    let mut u = user_with(1001, "pw");
    assert_eq!(identity.verify_authentication_on(&u, "pw", 700_000), Ok(()));
    assert_eq!(identity.verify_authentication_on(&u, "bad", 700_000), Err(AuthError::InvalidCredentials));
    // expiring today is still valid; yesterday is not
    assert_eq!(identity.verify_authentication_on(&u, "pw", 800_000), Ok(()));
    assert_eq!(identity.verify_authentication_on(&u, "pw", 800_001), Err(AuthError::PasswordExpired));
    u.account_disabled = true;
    u.date_dismiss = Some(1);
    assert_eq!(identity.verify_authentication_on(&u, "pw", 800_001), Err(AuthError::PasswordExpired));
    assert_eq!(identity.verify_authentication_on(&u, "pw", 700_000), Err(AuthError::AccountDisabled));
    u.account_disabled = false;
    assert_eq!(identity.verify_authentication_on(&u, "pw", 700_000), Err(AuthError::AccountDismissed));
    assert_eq!(identity.verify_authentication_on(&u, "bad", 700_000), Err(AuthError::InvalidCredentials));
}

#[test]
fn unknown_user_is_reported() {
    let identity = Identity::new();
    assert_eq!(identity.check_login_on(None, "pw", 700_000), Err(AuthError::UserNotFound));
    let u = user_with(7, "pw");
    assert_eq!(identity.check_login_on(Some(&u), "pw", 700_000), Ok(()));
}

#[test]
fn login_today_with_current_password() {
    let identity = Identity::new();
    let u = user_with(12, "pw");
    assert_eq!(identity.verify_authentication(&u, "pw"), Ok(()));
    assert_eq!(identity.verify_authentication(&u, "px"), Err(AuthError::InvalidCredentials));
}

#[test]
fn error_kinds() {
    assert_eq!(AuthError::MalformedAuthorizationHeader.kind(), ErrorKind::BadRequest);
    assert_eq!(AuthError::MalformedPersonnelNumber.kind(), ErrorKind::BadRequest);
    assert_eq!(AuthError::UserNotFound.kind(), ErrorKind::AuthenticationFailure);
    assert_eq!(AuthError::InvalidCredentials.kind(), ErrorKind::AuthenticationFailure);
    assert_eq!(AuthError::PasswordExpired.kind(), ErrorKind::AuthenticationFailure);
    assert_eq!(AuthError::AccountDisabled.kind(), ErrorKind::AuthenticationFailure);
    assert_eq!(AuthError::AccountDismissed.kind(), ErrorKind::AuthenticationFailure);
    assert_eq!(AuthError::InvalidToken.kind(), ErrorKind::AuthorizationFailure);
    assert_eq!(AuthError::SessionExpired.kind(), ErrorKind::AuthorizationFailure);
    assert_eq!(AuthError::Unauthenticated.kind(), ErrorKind::AuthorizationFailure);
    assert_eq!(AuthError::TokenCollision.kind(), ErrorKind::Internal);
}

#[test]
fn boolean_response_carries_its_value() {
    assert!(BooleanResponse::of(true).result);
    assert!(!BooleanResponse::of(false).result);
}

#[test]
fn copies_keep_every_field() {
    let u = user_with(3, "pw");
    let c = u.duplicate();
    assert_eq!(c.personnel_nr, 3);
    assert_eq!(c.salt, u.salt);
    assert_eq!(c.password, u.password);
    assert_eq!(c.telefon, u.telefon);
    let roles = vec![UserRole { role_id: 1, role_name: "admin".to_string() }];
    let copied = identity_server::domain::copy_roles(&roles);
    assert_eq!(copied.len(), 1);
    assert_eq!(copied[0].role_name, "admin");
    let res = vec![UserResource { resource_id: 2, resource_name: "files".to_string(), with_write_or_execution: true }];
    let copied = identity_server::domain::copy_resources(&res);
    assert_eq!(copied[0].resource_id, 2);
    assert!(copied[0].with_write_or_execution);
}

#[test]
fn personnel_numbers_are_decimal_i16() {
    assert_eq!(parse_personnel_nr("1001"), Ok(1001));
    assert_eq!(parse_personnel_nr("+7"), Ok(7));
    assert_eq!(parse_personnel_nr("-12"), Ok(-12));
    assert_eq!(parse_personnel_nr("0"), Ok(0));
    assert_eq!(parse_personnel_nr("32767"), Ok(32767));
    assert_eq!(parse_personnel_nr("-32768"), Ok(-32768));
    assert_eq!(parse_personnel_nr("007"), Ok(7));
    for bad in ["", "+", "-", "32768", "-32769", "12a", "a12", " 1", "1 ", "100000000000", "1.0"] {
        assert_eq!(parse_personnel_nr(bad), Err(AuthError::MalformedPersonnelNumber), "{}", bad);
    }
}

#[test]
fn login_check_today() {
    let identity = Identity::new();
    let u = user_with(21, "pw");
    assert_eq!(identity.check_login(Some(&u), "pw"), Ok(()));
    assert_eq!(identity.check_login(None, "pw"), Err(AuthError::UserNotFound));
}

#[test]
fn login_body_keeps_its_fields() {
    let c = identity_server::dto::UsernamePasswordCredentials::new("1001".to_string(), "pw".to_string());
    assert_eq!(c.username, "1001");
    assert_eq!(c.password, "pw");
    assert_eq!(parse_personnel_nr(&c.username), Ok(1001));
    let t = identity_server::dto::SSLConfig { path: "/k".to_string(), keyfile: "key.pem".to_string(), certfile: "cert.pem".to_string() };
    assert_eq!(t.keyfile, "key.pem");
}
