use vstd::prelude::*;
use crate::model::{TutorSignInForm, User, UserView};
use crate::password::{verification, verify_password};

verus! {

/// How a sign-in attempt ended.
#[derive(PartialEq, Eq, Structural, Debug, Clone, Copy)]
pub enum SignInOutcome {
    Success,
    UserNotFound,
    InvalidPassword,
    /// The stored hash could not be decoded.
    VerificationError,
}

/// The view of an optional credential row.
pub open spec fn record_view(record: Option<User>) -> Option<UserView> {
    match record {
        Some(u) => Some(u@),
        None => None,
    }
}

/// The outcome of signing in with `password` against the stored `record`.
pub open spec fn sign_in_result(record: Option<UserView>, password: Seq<char>) -> SignInOutcome {
    match record {
        None => SignInOutcome::UserNotFound,
        Some(u) => match verification(u.password_hash, password) {
            Ok(true) => SignInOutcome::Success,
            Ok(false) => SignInOutcome::InvalidPassword,
            Err(_) => SignInOutcome::VerificationError,
        },
    }
}

/// Checks the submitted password against the credential row found under the
/// submitted username, if any. Reads nothing else and changes nothing.
pub fn sign_in_outcome(form: &TutorSignInForm, record: &Option<User>) -> (r: SignInOutcome)
    ensures
        r == sign_in_result(record_view(*record), form.password@),
{
    match record {
        None => SignInOutcome::UserNotFound,
        Some(u) => match verify_password(u.user_password.as_str(), form.password.as_str()) {
            Ok(true) => SignInOutcome::Success,
            Ok(false) => SignInOutcome::InvalidPassword,
            Err(_) => SignInOutcome::VerificationError,
        },
    }
}

/// What the sign-in form shows when it is rendered.
pub struct SignInFormView {
    pub error: String,
    pub name: String,
    pub password: String,
}

/// The empty sign-in form.
pub fn empty_signin_form() -> (r: SignInFormView)
    ensures
        r.error@.len() == 0,
        r.name@.len() == 0,
        r.password@.len() == 0,
{
    SignInFormView { error: String::new(), name: String::new(), password: String::new() }
}

/// The message shown for a failed sign-in.
pub open spec fn sign_in_error_text(o: SignInOutcome) -> Seq<char> {
    match o {
        SignInOutcome::UserNotFound => "User id not found"@,
        SignInOutcome::InvalidPassword => "Invalid login"@,
        SignInOutcome::VerificationError => "Invalid login"@,
        SignInOutcome::Success => Seq::empty(),
    }
}

/// The sign-in form rendered again after `outcome`, or `None` on success.
/// The username is kept; the password is kept after a wrong password and
/// cleared when the user is unknown.
pub fn refill_signin_form(form: &TutorSignInForm, outcome: SignInOutcome) -> (r: Option<
    SignInFormView,
>)
    ensures
        (outcome == SignInOutcome::Success) <==> r is None,
        r matches Some(v) ==> v.error@ == sign_in_error_text(outcome) && v.name@
            == form.username@ && (if outcome == SignInOutcome::UserNotFound {
            v.password@.len() == 0
        } else {
            v.password@ == form.password@
        }),
{
    match outcome {
        SignInOutcome::Success => None,
        SignInOutcome::UserNotFound => Some(
            SignInFormView {
                error: "User id not found".to_owned(),
                name: form.username.clone(),
                password: String::new(),
            },
        ),
        SignInOutcome::InvalidPassword => Some(
            SignInFormView {
                error: "Invalid login".to_owned(),
                name: form.username.clone(),
                password: form.password.clone(),
            },
        ),
        SignInOutcome::VerificationError => Some(
            SignInFormView {
                error: "Invalid login".to_owned(),
                name: form.username.clone(),
                password: form.password.clone(),
            },
        ),
    }
}

} // verus!
