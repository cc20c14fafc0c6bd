use tutor_auth::model::{TutorSignInForm, User};
use tutor_auth::password::hash_password;
use tutor_auth::signin::{empty_signin_form, refill_signin_form, sign_in_outcome, SignInOutcome};

fn signin(username: &str, password: &str) -> TutorSignInForm {
    TutorSignInForm { username: username.to_string(), password: password.to_string() }
}

#[test]
fn no_record_is_user_not_found() {
    assert_eq!(sign_in_outcome(&signin("bob", "x"), &None), SignInOutcome::UserNotFound);
}

#[test]
fn corrupt_stored_hash_is_verification_error() {
    let record = Some(User {
        username: "gina".to_string(),
        tutor_id: Some(3),
        user_password: "garbage".to_string(),
    });
    assert_eq!(sign_in_outcome(&signin("gina", "pw"), &record), SignInOutcome::VerificationError);
}

#[test]
fn stored_hash_checks_password() {
    let hash = hash_password("letmein1", b"somerandomsalt").unwrap();
    let record = Some(User { username: "hal".to_string(), tutor_id: Some(4), user_password: hash });
    assert_eq!(sign_in_outcome(&signin("hal", "letmein1"), &record), SignInOutcome::Success);
    assert_eq!(sign_in_outcome(&signin("hal", "letmein2"), &record), SignInOutcome::InvalidPassword);
}

#[test]
fn refill_after_unknown_user_clears_password() {
    let v = refill_signin_form(&signin("bob", "pw"), SignInOutcome::UserNotFound).unwrap();
    assert_eq!(v.error, "User id not found");
    assert_eq!(v.name, "bob");
    assert_eq!(v.password, "");
}

#[test]
fn refill_after_wrong_password_keeps_password() {
    let v = refill_signin_form(&signin("alice", "WrongPass"), SignInOutcome::InvalidPassword).unwrap();
    assert_eq!(v.error, "Invalid login");
    assert_eq!(v.name, "alice");
    assert_eq!(v.password, "WrongPass");
    let e = refill_signin_form(&signin("alice", "pw"), SignInOutcome::VerificationError).unwrap();
    assert_eq!(e.error, "Invalid login");
}

#[test]
fn no_refill_after_success() {
    assert!(refill_signin_form(&signin("alice", "pw"), SignInOutcome::Success).is_none());
}

#[test]
fn empty_signin_form_has_no_values() {
    let v = empty_signin_form();
    assert_eq!(v.error, "");
    assert_eq!(v.name, "");
    assert_eq!(v.password, "");
}
