use tutor_auth::model::{TutorRegisterForm, TutorSignInForm, User};
use tutor_auth::register::{
    decide_registration, empty_register_form, new_credential, push_decimal, refill_register_form,
    registration_message, RegisterDecision, RegisterError,
};
use tutor_auth::signin::SignInOutcome;
use tutor_auth::store::CredentialStore;

const SALT: &[u8] = b"somerandomsalt";

fn form(username: &str, password: &str, confirmation: &str) -> TutorRegisterForm {
    TutorRegisterForm {
        username: username.to_string(),
        password: password.to_string(),
        confirmation: confirmation.to_string(),
        name: "Alice Smith".to_string(),
        imageurl: "http://img/alice.png".to_string(),
        profile: "Maths tutor".to_string(),
    }
}

fn signin(username: &str, password: &str) -> TutorSignInForm {
    TutorSignInForm { username: username.to_string(), password: password.to_string() }
}

fn store_with_alice() -> CredentialStore {
    let mut store = CredentialStore::new();
    let f = form("alice", "Secret1!", "Secret1!");
    assert_eq!(store.begin_register(&f), RegisterDecision::CreateProfile);
    assert_eq!(store.complete_register(&f, Some(42), SALT), Ok(42));
    store
}

#[test]
fn register_alice_writes_one_row_with_tutor_id() {
    let store = store_with_alice();
    assert_eq!(store.len(), 1);
    let row = store.find(&"alice".to_string()).unwrap();
    assert_eq!(row.username, "alice");
    assert_eq!(row.tutor_id, Some(42));
    assert_ne!(row.user_password, "Secret1!");
    assert!(row.user_password.starts_with("$argon2"));
    let message = registration_message(42);
    assert!(message.contains("42"));
}

#[test]
fn register_alice_again_is_duplicate() {
    let mut store = store_with_alice();
    let again = form("alice", "Other1", "Other2");
    assert_eq!(store.begin_register(&again), RegisterDecision::DuplicateUser);
    assert_eq!(store.complete_register(&again, Some(7), SALT), Err(RegisterError::DuplicateUser));
    assert_eq!(store.len(), 1);
    assert_eq!(store.find(&"alice".to_string()).unwrap().tutor_id, Some(42));
}

#[test]
fn sign_in_alice_with_wrong_password_is_invalid() {
    let store = store_with_alice();
    assert_eq!(store.sign_in(&signin("alice", "WrongPass")), SignInOutcome::InvalidPassword);
}

#[test]
fn sign_in_alice_with_original_password_succeeds() {
    let store = store_with_alice();
    assert_eq!(store.sign_in(&signin("alice", "Secret1!")), SignInOutcome::Success);
}

#[test]
fn sign_in_unknown_user_is_not_found() {
    let store = store_with_alice();
    assert_eq!(store.sign_in(&signin("bob", "Secret1!")), SignInOutcome::UserNotFound);
}

#[test]
fn mismatched_passwords_are_refused_before_profile_service() {
    let mut store = CredentialStore::new();
    let f = form("carol", "abc12345", "abc12346");
    assert_eq!(store.begin_register(&f), RegisterDecision::PasswordMismatch);
    assert_eq!(store.complete_register(&f, Some(3), SALT), Err(RegisterError::PasswordMismatch));
    assert_eq!(store.len(), 0);
}

#[test]
fn profile_service_failure_writes_no_row() {
    let mut store = CredentialStore::new();
    let f = form("dave", "pw", "pw");
    assert_eq!(store.begin_register(&f), RegisterDecision::CreateProfile);
    assert_eq!(
        store.complete_register(&f, None, SALT),
        Err(RegisterError::ProfileServiceUnavailable)
    );
    assert_eq!(store.len(), 0);
    assert!(store.find(&"dave".to_string()).is_none());
}

#[test]
fn short_salt_fails_hashing_and_writes_no_row() {
    let mut store = CredentialStore::new();
    let f = form("erin", "pw", "pw");
    assert_eq!(store.complete_register(&f, Some(5), b"tiny"), Err(RegisterError::PasswordHashFailed));
    assert_eq!(store.len(), 0);
}

#[test]
fn two_users_register_independently() {
    let mut store = CredentialStore::new();
    assert_eq!(store.complete_register(&form("u1", "p1", "p1"), Some(1), SALT), Ok(1));
    assert_eq!(store.complete_register(&form("u2", "p2", "p2"), Some(2), SALT), Ok(2));
    assert_eq!(store.len(), 2);
    assert_eq!(store.sign_in(&signin("u1", "p1")), SignInOutcome::Success);
    assert_eq!(store.sign_in(&signin("u2", "p1")), SignInOutcome::InvalidPassword);
}

#[test]
fn decision_prefers_duplicate_over_mismatch() {
    let f = form("alice", "a", "b");
    let existing = Some(User {
        username: "alice".to_string(),
        tutor_id: Some(1),
        user_password: "x".to_string(),
    });
    assert_eq!(decide_registration(&f, &existing), RegisterDecision::DuplicateUser);
    assert_eq!(decide_registration(&f, &None), RegisterDecision::PasswordMismatch);
    assert_eq!(decide_registration(&form("z", "a", "a"), &None), RegisterDecision::CreateProfile);
}

#[test]
fn new_credential_hashes_password() {
    let f = form("frank", "hunter22", "hunter22");
    let user = new_credential(&f, 9, SALT).unwrap();
    assert_eq!(user.username, "frank");
    assert_eq!(user.tutor_id, Some(9));
    assert_ne!(user.user_password, "hunter22");
}

#[test]
fn refilled_form_clears_passwords_and_keeps_other_fields() {
    let f = form("alice", "Secret1!", "Secret1!");
    let dup = refill_register_form(&f, RegisterDecision::DuplicateUser);
    assert_eq!(dup.error, "User Id already exists");
    assert_eq!(dup.username, "alice");
    assert_eq!(dup.password, "");
    assert_eq!(dup.confirmation, "");
    assert_eq!(dup.name, "Alice Smith");
    assert_eq!(dup.imageurl, "http://img/alice.png");
    assert_eq!(dup.profile, "Maths tutor");
    let mismatch = refill_register_form(&f, RegisterDecision::PasswordMismatch);
    assert_eq!(mismatch.error, "Passwords do not match");
}

#[test]
fn empty_register_form_has_no_values() {
    let v = empty_register_form();
    assert_eq!(v.error, "");
    assert_eq!(v.username, "");
    assert_eq!(v.profile, "");
}

#[test]
fn registration_message_exact_text() {
    assert_eq!(
        registration_message(42),
        "Congratulations. You have been successfully registered with EzyTutor and your tutor id is: 42. To start using EzyTutor, please login with your credentials."
    );
}

#[test]
fn decimal_formatting_edges() {
    let cases: [(i32, &str); 6] = [
        (0, "0"),
        (7, "7"),
        (10, "10"),
        (-5, "-5"),
        (i32::MAX, "2147483647"),
        (i32::MIN, "-2147483648"),
    ];
    for (n, text) in cases {
        let mut s = String::from("id=");
        push_decimal(&mut s, n);
        assert_eq!(s, format!("id={}", text));
    }
}
