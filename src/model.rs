use vstd::prelude::*;

verus! {

/// The registration form a prospective tutor submits.
pub struct TutorRegisterForm {
    pub username: String,
    pub password: String,
    pub confirmation: String,
    pub name: String,
    pub imageurl: String,
    pub profile: String,
}

/// The profile record returned by the profile service.
pub struct TutorResponse {
    pub tutor_id: i32,
    pub tutor_name: String,
    pub tutor_pic_url: String,
    pub tutor_profile: String,
}

/// A persisted credential row: the username, the remote tutor id, and the
/// encoded password hash (never the raw password).
pub struct User {
    pub username: String,
    pub tutor_id: Option<i32>,
    pub user_password: String,
}

/// The sign-in form.
pub struct TutorSignInForm {
    pub username: String,
    pub password: String,
}

/// The mathematical content of a credential row.
pub struct UserView {
    pub username: Seq<char>,
    pub tutor_id: Option<i32>,
    pub password_hash: Seq<char>,
}

impl View for User {
    type V = UserView;

    open spec fn view(&self) -> UserView {
        UserView {
            username: self.username@,
            tutor_id: self.tutor_id,
            password_hash: self.user_password@,
        }
    }
}

} // verus!
