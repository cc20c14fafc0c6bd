use vstd::prelude::*;
use crate::model::{TutorRegisterForm, User, UserView};
use crate::password::{
    argon2_encoded, hash_password, password_in_range, salt_in_range, verifies_exactly,
};

verus! {

/// What registration does once the username has been looked up.
#[derive(PartialEq, Eq, Structural, Debug, Clone, Copy)]
pub enum RegisterDecision {
    /// The username is taken: re-render the form.
    DuplicateUser,
    /// Password and confirmation differ: re-render the form.
    PasswordMismatch,
    /// Ask the profile service to create the tutor profile.
    CreateProfile,
}

/// Why a registration did not complete.
#[derive(PartialEq, Eq, Structural, Debug, Clone, Copy)]
pub enum RegisterError {
    DuplicateUser,
    PasswordMismatch,
    ProfileServiceUnavailable,
    CredentialStoreWriteFailed,
    PasswordHashFailed,
}

/// The decision for a lookup result and the two submitted passwords: a taken
/// username wins over a mismatch, and only a fresh username with matching
/// passwords proceeds.
pub open spec fn registration_decision(
    username_taken: bool,
    password: Seq<char>,
    confirmation: Seq<char>,
) -> RegisterDecision {
    if username_taken {
        RegisterDecision::DuplicateUser
    } else if password != confirmation {
        RegisterDecision::PasswordMismatch
    } else {
        RegisterDecision::CreateProfile
    }
}

/// Decides how to proceed with `form`, given what the credential store holds
/// under its username.
pub fn decide_registration(form: &TutorRegisterForm, existing: &Option<User>) -> (r:
    RegisterDecision)
    ensures
        r == registration_decision(existing is Some, form.password@, form.confirmation@),
{
    if existing.is_some() {
        RegisterDecision::DuplicateUser
    } else if form.password != form.confirmation {
        RegisterDecision::PasswordMismatch
    } else {
        RegisterDecision::CreateProfile
    }
}

/// The credential row that registration writes for `form` once the profile
/// service assigned `tutor_id`.
pub open spec fn credential_row(form: &TutorRegisterForm, tutor_id: i32, hash: Seq<char>) -> UserView {
    UserView { username: form.username@, tutor_id: Some(tutor_id), password_hash: hash }
}

/// Builds the credential row for `form`, hashing its password with `salt`.
pub fn new_credential(form: &TutorRegisterForm, tutor_id: i32, salt: &[u8]) -> (r: Result<
    User,
    RegisterError,
>)
    ensures
        match r {
            Ok(u) => argon2_encoded(form.password@, salt@) == Some(u.user_password@) && u@
                == credential_row(form, tutor_id, u.user_password@) && verifies_exactly(
                u.user_password@,
                salt@,
            ),
            Err(e) => e == RegisterError::PasswordHashFailed && argon2_encoded(
                form.password@,
                salt@,
            ) is None,
        },
        salt_in_range(salt@) && password_in_range(form.password@) ==> r is Ok,
{
    match hash_password(form.password.as_str(), salt) {
        Ok(hash) => Ok(
            User { username: form.username.clone(), tutor_id: Some(tutor_id), user_password: hash },
        ),
        Err(_) => Err(RegisterError::PasswordHashFailed),
    }
}

/// What the registration form shows when it is rendered again.
pub struct RegisterFormView {
    pub error: String,
    pub username: String,
    pub password: String,
    pub confirmation: String,
    pub name: String,
    pub imageurl: String,
    pub profile: String,
}

/// The empty registration form.
pub fn empty_register_form() -> (r: RegisterFormView)
    ensures
        r.error@.len() == 0,
        r.username@.len() == 0,
        r.password@.len() == 0,
        r.confirmation@.len() == 0,
        r.name@.len() == 0,
        r.imageurl@.len() == 0,
        r.profile@.len() == 0,
{
    RegisterFormView {
        error: String::new(),
        username: String::new(),
        password: String::new(),
        confirmation: String::new(),
        name: String::new(),
        imageurl: String::new(),
        profile: String::new(),
    }
}

/// The message shown for a refused registration.
pub open spec fn register_error_text(d: RegisterDecision) -> Seq<char> {
    match d {
        RegisterDecision::DuplicateUser => "User Id already exists"@,
        RegisterDecision::PasswordMismatch => "Passwords do not match"@,
        RegisterDecision::CreateProfile => Seq::empty(),
    }
}

/// The registration form rendered again after `decision` refused `form`:
/// every field is kept but the two passwords, which are cleared.
pub fn refill_register_form(form: &TutorRegisterForm, decision: RegisterDecision) -> (r:
    RegisterFormView)
    ensures
        r.error@ == register_error_text(decision),
        r.username@ == form.username@,
        r.password@.len() == 0,
        r.confirmation@.len() == 0,
        r.name@ == form.name@,
        r.imageurl@ == form.imageurl@,
        r.profile@ == form.profile@,
{
    let error = match decision {
        RegisterDecision::DuplicateUser => "User Id already exists".to_owned(),
        RegisterDecision::PasswordMismatch => "Passwords do not match".to_owned(),
        RegisterDecision::CreateProfile => String::new(),
    };
    RegisterFormView {
        error,
        username: form.username.clone(),
        password: String::new(),
        confirmation: String::new(),
        name: form.name.clone(),
        imageurl: form.imageurl.clone(),
        profile: form.profile.clone(),
    }
}

/// The decimal digit `d` (below ten).
pub open spec fn digit_char(d: nat) -> char {
    if d == 0 {
        '0'
    } else if d == 1 {
        '1'
    } else if d == 2 {
        '2'
    } else if d == 3 {
        '3'
    } else if d == 4 {
        '4'
    } else if d == 5 {
        '5'
    } else if d == 6 {
        '6'
    } else if d == 7 {
        '7'
    } else if d == 8 {
        '8'
    } else {
        '9'
    }
}

/// The decimal digits of `n`, without leading zeros.
pub open spec fn digits(n: nat) -> Seq<char>
    decreases n,
{
    if n < 10 {
        seq![digit_char(n)]
    } else {
        digits(n / 10).push(digit_char(n % 10))
    }
}

/// `n` written in decimal, with a leading minus sign when negative.
pub open spec fn decimal(n: int) -> Seq<char> {
    if n < 0 {
        seq!['-'] + digits((-n) as nat)
    } else {
        digits(n as nat)
    }
}

/// Relies on `String::push`: appends one character.
#[verifier::external_body]
fn push_char(s: &mut String, c: char)
    ensures
        final(s)@ == old(s)@.push(c),
{
    s.push(c)
}

/// Relies on `String::push_str`: appends a string.
#[verifier::external_body]
fn push_str(s: &mut String, t: &str)
    ensures
        final(s)@ == old(s)@ + t@,
{
    s.push_str(t)
}

fn digit_of(d: u32) -> (c: char)
    requires
        d < 10,
    ensures
        c == digit_char(d as nat),
{
    if d == 0 {
        '0'
    } else if d == 1 {
        '1'
    } else if d == 2 {
        '2'
    } else if d == 3 {
        '3'
    } else if d == 4 {
        '4'
    } else if d == 5 {
        '5'
    } else if d == 6 {
        '6'
    } else if d == 7 {
        '7'
    } else if d == 8 {
        '8'
    } else {
        '9'
    }
}

fn push_digits(s: &mut String, n: u32)
    ensures
        final(s)@ == old(s)@ + digits(n as nat),
    decreases n,
{
    if n >= 10 {
        push_digits(s, n / 10);
    }
    push_char(s, digit_of(n % 10));
    proof {
        if n >= 10 {
            assert(final(s)@ =~= old(s)@ + digits(n as nat));
        } else {
            assert(final(s)@ =~= old(s)@ + digits(n as nat));
        }
    }
}

/// Appends `n` in decimal to `s`.
pub fn push_decimal(s: &mut String, n: i32)
    ensures
        final(s)@ == old(s)@ + decimal(n as int),
{
    if n < 0 {
        push_char(s, '-');
        let m: u32 = (-(n as i64)) as u32;
        push_digits(s, m);
        assert(final(s)@ =~= old(s)@ + decimal(n as int));
    } else {
        push_digits(s, n as u32);
    }
}

/// The text that opens the confirmation of a completed registration.
pub open spec fn confirmation_head() -> Seq<char> {
    "Congratulations. You have been successfully registered with EzyTutor and your tutor id is: "@
}

/// The text that closes the confirmation of a completed registration.
pub open spec fn confirmation_tail() -> Seq<char> {
    ". To start using EzyTutor, please login with your credentials."@
}

/// The confirmation shown once registration assigned `tutor_id`: it names the
/// id and asks the tutor to sign in.
pub fn registration_message(tutor_id: i32) -> (r: String)
    ensures
        r@ == confirmation_head() + decimal(tutor_id as int) + confirmation_tail(),
{
    let mut s = "Congratulations. You have been successfully registered with EzyTutor and your tutor id is: ".to_owned();
    push_decimal(&mut s, tutor_id);
    push_str(&mut s, ". To start using EzyTutor, please login with your credentials.");
    s
}

} // verus!
