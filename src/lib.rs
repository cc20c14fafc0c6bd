//! Registration and sign-in for tutors: form validation, duplicate detection,
//! salted password hashing, and the two-phase registration that creates a
//! remote tutor profile before the local credential row is written.

pub mod model;
pub mod password;
pub mod register;
pub mod signin;
pub mod store;
