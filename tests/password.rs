use tutor_auth::password::{hash_password, verify_password, PasswordError};

const SALT: &[u8] = b"somerandomsalt";

#[test]
fn hash_then_verify_accepts_same_password() {
    let encoded = hash_password("Secret1!", SALT).unwrap();
    assert_ne!(encoded, "Secret1!");
    assert!(encoded.starts_with("$argon2"));
    assert_eq!(verify_password(&encoded, "Secret1!"), Ok(true));
}

#[test]
fn hash_then_verify_rejects_other_password() {
    let encoded = hash_password("Secret1!", SALT).unwrap();
    assert_eq!(verify_password(&encoded, "WrongPass"), Ok(false));
}

#[test]
fn hash_is_deterministic_for_fixed_salt() {
    let a = hash_password("pw", SALT).unwrap();
    let b = hash_password("pw", SALT).unwrap();
    assert_eq!(a, b);
}

#[test]
fn different_salts_give_different_encodings() {
    let a = hash_password("pw", b"saltsalt1").unwrap();
    let b = hash_password("pw", b"saltsalt2").unwrap();
    assert_ne!(a, b);
    assert_eq!(verify_password(&b, "pw"), Ok(true));
}

#[test]
fn short_salt_is_refused() {
    assert_eq!(hash_password("pw", b"short"), Err(PasswordError::HashFailed));
}

#[test]
fn empty_password_round_trips() {
    let encoded = hash_password("", SALT).unwrap();
    assert_eq!(verify_password(&encoded, ""), Ok(true));
    assert_eq!(verify_password(&encoded, " "), Ok(false));
}

#[test]
fn malformed_hash_is_a_format_error() {
    assert_eq!(
        verify_password("not-a-hash", "Secret1!"),
        Err(PasswordError::HashFormatError)
    );
}
