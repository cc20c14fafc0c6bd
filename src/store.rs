use vstd::prelude::*;
use crate::model::{TutorRegisterForm, TutorSignInForm, User, UserView};
use crate::password::{argon2_encoded, password_in_range, salt_in_range};
use crate::register::{
    credential_row, decide_registration, new_credential, registration_decision, RegisterDecision,
    RegisterError,
};
use crate::signin::{record_view, sign_in_outcome, sign_in_result, SignInOutcome};

verus! {

/// No two rows share a username.
pub open spec fn names_unique(rows: Seq<UserView>) -> bool {
    forall|i: int, j: int|
        0 <= i < j < rows.len() ==> #[trigger] rows[i].username != #[trigger] rows[j].username
}

/// Some row holds `name`.
pub open spec fn holds_name(rows: Seq<UserView>, name: Seq<char>) -> bool {
    exists|i: int| 0 <= i < rows.len() && #[trigger] rows[i].username == name
}

/// The row that holds `name`, if any.
pub open spec fn row_of(rows: Seq<UserView>, name: Seq<char>) -> Option<UserView> {
    if holds_name(rows, name) {
        Some(rows[choose|i: int| 0 <= i < rows.len() && #[trigger] rows[i].username == name])
    } else {
        None
    }
}

/// The rows after registering `form`, and the outcome: the assigned tutor id,
/// or why nothing was written. `profile` is the id that the profile service
/// returned, or `None` where it failed; it is consulted only once the
/// username is fresh and the passwords match.
pub open spec fn register_effect(
    rows: Seq<UserView>,
    form: &TutorRegisterForm,
    profile: Option<i32>,
    salt: Seq<u8>,
) -> (Seq<UserView>, Result<i32, RegisterError>) {
    match registration_decision(
        holds_name(rows, form.username@),
        form.password@,
        form.confirmation@,
    ) {
        RegisterDecision::DuplicateUser => (rows, Err(RegisterError::DuplicateUser)),
        RegisterDecision::PasswordMismatch => (rows, Err(RegisterError::PasswordMismatch)),
        RegisterDecision::CreateProfile => match profile {
            None => (rows, Err(RegisterError::ProfileServiceUnavailable)),
            Some(id) => match argon2_encoded(form.password@, salt) {
                None => (rows, Err(RegisterError::PasswordHashFailed)),
                Some(h) => (rows.push(credential_row(form, id, h)), Ok(id)),
            },
        },
    }
}

/// The credential store: one row per registered username.
pub struct CredentialStore {
    rows: Vec<User>,
}

impl View for CredentialStore {
    type V = Seq<UserView>;

    closed spec fn view(&self) -> Seq<UserView> {
        self.rows@.map_values(|u: User| u@)
    }
}

impl CredentialStore {
    /// Usernames are unique.
    pub open spec fn wf(&self) -> bool {
        names_unique(self@)
    }

    /// An empty store.
    pub fn new() -> (r: Self)
        ensures
            r@ == Seq::<UserView>::empty(),
            r.wf(),
    {
        CredentialStore { rows: Vec::new() }
    }

    /// The number of rows.
    pub fn len(&self) -> (r: usize)
        ensures
            r == self@.len(),
    {
        self.rows.len()
    }

    /// The row stored under `username`, if any.
    pub fn find(&self, username: &String) -> (r: Option<User>)
        requires
            self.wf(),
        ensures
            record_view(r) == row_of(self@, username@),
    {
        let mut i: usize = 0;
        while i < self.rows.len()
            invariant
                i <= self.rows.len(),
                self.wf(),
                forall|k: int| 0 <= k < i ==> #[trigger] self@[k].username != username@,
            decreases self.rows.len() - i,
        {
            let u = &self.rows[i];
            if u.username == *username {
                proof {
                    assert(self@[i as int] == u@);
                    assert(self@[i as int].username == username@);
                    assert(holds_name(self@, username@));
                    let j = choose|j: int|
                        0 <= j < self@.len() && #[trigger] self@[j].username == username@;
                    if j != i as int {
                        assert(self@[j].username != self@[i as int].username);
                    }
                }
                return Some(
                    User {
                        username: u.username.clone(),
                        tutor_id: u.tutor_id,
                        user_password: u.user_password.clone(),
                    },
                );
            }
            assert(self@[i as int] == u@);
            i = i + 1;
        }
        None
    }

    /// Adds `user` unless its username is already stored (the store's unique
    /// key), in which case nothing changes.
    pub fn insert(&mut self, user: User) -> (r: Result<(), StoreError>)
        requires
            old(self).wf(),
        ensures
            final(self).wf(),
            holds_name(old(self)@, user@.username) ==> r == Err::<(), StoreError>(
                StoreError::UsernameTaken,
            ) && final(self)@ == old(self)@,
            !holds_name(old(self)@, user@.username) ==> r is Ok && final(self)@ == old(
                self,
            )@.push(user@),
    {
        let existing = self.find(&user.username);
        if existing.is_some() {
            return Err(StoreError::UsernameTaken);
        }
        let ghost v = user@;
        self.rows.push(user);
        proof {
            assert(self@ =~= old(self)@.push(v));
            assert forall|i: int, j: int| 0 <= i < j < self@.len() implies #[trigger] self@[i].username
                != #[trigger] self@[j].username by {
                if j == self@.len() - 1 {
                    assert(old(self)@[i].username == self@[i].username);
                }
            }
        }
        Ok(())
    }

    /// The first step of registering `form`: whether to ask the profile
    /// service for a profile, or which refusal to show.
    pub fn begin_register(&self, form: &TutorRegisterForm) -> (r: RegisterDecision)
        requires
            self.wf(),
        ensures
            r == registration_decision(
                holds_name(self@, form.username@),
                form.password@,
                form.confirmation@,
            ),
    {
        let existing = self.find(&form.username);
        decide_registration(form, &existing)
    }

    /// The second step of registering `form`, once the profile service
    /// answered with `profile` (`None` where it failed): writes the credential
    /// row, its password hashed with `salt`, and returns the tutor id.
    ///
    /// After a successful registration, signing in under the username with
    /// any password succeeds exactly when that password hashes to the stored
    /// encoding under `salt`; with the registered password it succeeds.
    pub fn complete_register(
        &mut self,
        form: &TutorRegisterForm,
        profile: Option<i32>,
        salt: &[u8],
    ) -> (r: Result<i32, RegisterError>)
        requires
            old(self).wf(),
        ensures
            final(self).wf(),
            (final(self)@, r) == register_effect(old(self)@, form, profile, salt@),
            salt_in_range(salt@) && password_in_range(form.password@) ==> r
                != Err::<i32, RegisterError>(RegisterError::PasswordHashFailed),
            r is Ok && password_in_range(form.password@) ==> sign_in_result(
                row_of(final(self)@, form.username@),
                form.password@,
            ) == SignInOutcome::Success,
            r is Ok ==> forall|q: Seq<char>|
                password_in_range(q) ==> #[trigger] sign_in_result(
                    row_of(final(self)@, form.username@),
                    q,
                ) == (if argon2_encoded(q, salt@) == argon2_encoded(form.password@, salt@) {
                    SignInOutcome::Success
                } else {
                    SignInOutcome::InvalidPassword
                }),
    {
        let existing = self.find(&form.username);
        match decide_registration(form, &existing) {
            RegisterDecision::DuplicateUser => Err(RegisterError::DuplicateUser),
            RegisterDecision::PasswordMismatch => Err(RegisterError::PasswordMismatch),
            RegisterDecision::CreateProfile => match profile {
                None => Err(RegisterError::ProfileServiceUnavailable),
                Some(id) => match new_credential(form, id, salt) {
                    Err(e) => Err(e),
                    Ok(u) => {
                        let ghost row = u@;
                        match self.insert(u) {
                            Ok(()) => {
                                proof {
                                    lemma_row_of_pushed(old(self)@, row);
                                }
                                Ok(id)
                            },
                            Err(_) => Err(RegisterError::CredentialStoreWriteFailed),
                        }
                    },
                },
            },
        }
    }

    /// Signs in with `form` against the row stored under its username.
    pub fn sign_in(&self, form: &TutorSignInForm) -> (r: SignInOutcome)
        requires
            self.wf(),
        ensures
            r == sign_in_result(row_of(self@, form.username@), form.password@),
    {
        let record = self.find(&form.username);
        sign_in_outcome(form, &record)
    }
}

/// Why the store refused a row.
#[derive(PartialEq, Eq, Structural, Debug, Clone, Copy)]
pub enum StoreError {
    /// A row with the same username is already stored.
    UsernameTaken,
}

/// A row pushed under a fresh username is the row found under it.
pub proof fn lemma_row_of_pushed(rows: Seq<UserView>, row: UserView)
    requires
        !holds_name(rows, row.username),
    ensures
        row_of(rows.push(row), row.username) == Some(row),
        holds_name(rows.push(row), row.username),
{
    let r2 = rows.push(row);
    assert(r2[rows.len() as int].username == row.username);
    let j = choose|j: int| 0 <= j < r2.len() && #[trigger] r2[j].username == row.username;
    if j < rows.len() {
        assert(rows[j].username == row.username);
    }
}

/// Registration never stores two rows under one username.
pub proof fn lemma_register_keeps_names_unique(
    rows: Seq<UserView>,
    form: &TutorRegisterForm,
    profile: Option<i32>,
    salt: Seq<u8>,
)
    requires
        names_unique(rows),
    ensures
        names_unique(register_effect(rows, form, profile, salt).0),
{
    let after = register_effect(rows, form, profile, salt).0;
    if after.len() != rows.len() {
        assert forall|i: int, j: int| 0 <= i < j < after.len() implies #[trigger] after[i].username
            != #[trigger] after[j].username by {
            if j == rows.len() {
                assert(after[i] == rows[i]);
                assert(!holds_name(rows, form.username@));
                assert(rows[i].username != form.username@);
            }
        }
    }
}

/// Registering a username a second time, with any form data and whatever the
/// profile service would answer, is refused as a duplicate and writes no row.
pub proof fn lemma_second_registration_is_duplicate(
    rows: Seq<UserView>,
    first: &TutorRegisterForm,
    second: &TutorRegisterForm,
    profile1: Option<i32>,
    profile2: Option<i32>,
    salt1: Seq<u8>,
    salt2: Seq<u8>,
)
    requires
        register_effect(rows, first, profile1, salt1).1 is Ok,
        second.username@ == first.username@,
    ensures
        ({
            let after = register_effect(rows, first, profile1, salt1).0;
            register_effect(after, second, profile2, salt2) == (
                after,
                Err::<i32, RegisterError>(RegisterError::DuplicateUser),
            )
        }),
{
    let after = register_effect(rows, first, profile1, salt1).0;
    assert(after[rows.len() as int].username == first.username@);
    assert(holds_name(after, second.username@));
}

/// A username that is already stored is refused as a duplicate, with no row
/// written, whatever the rest of the form and the profile service's answer.
pub proof fn lemma_taken_username_is_duplicate(
    rows: Seq<UserView>,
    form: &TutorRegisterForm,
    profile: Option<i32>,
    salt: Seq<u8>,
)
    requires
        holds_name(rows, form.username@),
    ensures
        register_effect(rows, form, profile, salt) == (
            rows,
            Err::<i32, RegisterError>(RegisterError::DuplicateUser),
        ),
{
}

/// For a fresh username, differing password and confirmation give
/// `PasswordMismatch`: the profile service is not asked (the decision is not
/// `CreateProfile`, and its answer does not matter), and no row is written.
pub proof fn lemma_mismatch_skips_profile_service(
    rows: Seq<UserView>,
    form: &TutorRegisterForm,
    profile1: Option<i32>,
    profile2: Option<i32>,
    salt: Seq<u8>,
)
    requires
        !holds_name(rows, form.username@),
        form.password@ != form.confirmation@,
    ensures
        registration_decision(false, form.password@, form.confirmation@)
            == RegisterDecision::PasswordMismatch,
        register_effect(rows, form, profile1, salt) == (
            rows,
            Err::<i32, RegisterError>(RegisterError::PasswordMismatch),
        ),
        register_effect(rows, form, profile1, salt) == register_effect(rows, form, profile2, salt),
{
}

/// When the profile service fails, no credential row is written.
pub proof fn lemma_profile_failure_writes_nothing(
    rows: Seq<UserView>,
    form: &TutorRegisterForm,
    salt: Seq<u8>,
)
    ensures
        register_effect(rows, form, None, salt).0 == rows,
        register_effect(rows, form, None, salt).1 is Err,
{
}

} // verus!
