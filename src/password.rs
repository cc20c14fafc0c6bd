use vstd::prelude::*;

verus! {

/// The largest password, in characters, whose UTF-8 encoding is guaranteed
/// to fit the hasher's 32-bit length limit.
pub const MAX_PASSWORD_CHARS: usize = 0x3FFF_FFFF;

/// The smallest salt, in bytes, that the hasher accepts.
pub const MIN_SALT_BYTES: usize = 8;

/// The largest salt, in bytes, that the hasher accepts.
pub const MAX_SALT_BYTES: usize = 0xFFFF_FFFF;

/// What Argon2 with its default parameters encodes for a password and a salt
/// (`None` where it refuses the inputs).
pub uninterp spec fn argon2_encoded(password: Seq<char>, salt: Seq<u8>) -> Option<Seq<char>>;

/// What Argon2 verification reports for an encoded hash and a password
/// (`None` where the encoding is not recognized).
pub uninterp spec fn argon2_verdict(encoded: Seq<char>, password: Seq<char>) -> Option<bool>;

/// A salt of a length the hasher accepts.
pub open spec fn salt_in_range(salt: Seq<u8>) -> bool {
    MIN_SALT_BYTES <= salt.len() <= MAX_SALT_BYTES
}

/// A password short enough that its bytes fit the hasher's length limit.
pub open spec fn password_in_range(password: Seq<char>) -> bool {
    password.len() <= MAX_PASSWORD_CHARS
}

/// An encoded hash verifies exactly the passwords that encode to it under `salt`.
pub open spec fn verifies_by_salt(encoded: Seq<char>, salt: Seq<u8>) -> bool {
    forall|q: Seq<char>|
        password_in_range(q) ==> #[trigger] argon2_verdict(encoded, q) == Some(
            argon2_encoded(q, salt) == Some(encoded),
        )
}

/// Relies on `argon2::hash_encoded` with `argon2::Config::default()`: the
/// result depends on the password and salt alone; it fails on a salt shorter
/// than eight bytes and succeeds when salt and password lengths fit in `u32`;
/// the encoding embeds the salt and parameters, so `argon2::verify_encoded`
/// recomputes the hash of a candidate with them and compares.
#[verifier::external_body]
fn argon2_hash_encoded(password: &str, salt: &[u8]) -> (r: Option<String>)
    ensures
        match r {
            Some(e) => argon2_encoded(password@, salt@) == Some(e@),
            None => argon2_encoded(password@, salt@) is None,
        },
        salt@.len() < MIN_SALT_BYTES ==> r is None,
        salt_in_range(salt@) && password_in_range(password@) ==> r is Some,
        r matches Some(e) ==> verifies_by_salt(e@, salt@),
{
    argon2::hash_encoded(password.as_bytes(), salt, &argon2::Config::default()).ok()
}

/// Relies on `argon2::verify_encoded`: it decodes the hash and compares it with
/// the password's hash under the decoded salt and parameters.
#[verifier::external_body]
fn argon2_verify_encoded(encoded: &str, password: &str) -> (r: Option<bool>)
    ensures
        r == argon2_verdict(encoded@, password@),
{
    argon2::verify_encoded(encoded, password.as_bytes()).ok()
}

/// Why hashing or verification failed.
#[derive(PartialEq, Eq, Structural, Debug, Clone, Copy)]
pub enum PasswordError {
    /// The hasher refused the password or the salt.
    HashFailed,
    /// The stored hash is not a recognized encoding.
    HashFormatError,
}

/// The result of verifying `password` against `encoded`.
pub open spec fn verification(encoded: Seq<char>, password: Seq<char>) -> Result<bool, PasswordError> {
    match argon2_verdict(encoded, password) {
        Some(b) => Ok(b),
        None => Err(PasswordError::HashFormatError),
    }
}

/// Every password of a length the hasher accepts verifies against `encoded`
/// exactly when it encodes to `encoded` under `salt`.
pub open spec fn verifies_exactly(encoded: Seq<char>, salt: Seq<u8>) -> bool {
    forall|q: Seq<char>|
        password_in_range(q) ==> #[trigger] verification(encoded, q) == Ok::<bool, PasswordError>(
            argon2_encoded(q, salt) == Some(encoded),
        )
}

/// Hashes `password` with `salt` into a self-describing encoded hash.
///
/// The encoding verifies `password`, and any other password exactly when that
/// password encodes to the same string under the same salt.
pub fn hash_password(password: &str, salt: &[u8]) -> (r: Result<String, PasswordError>)
    ensures
        match r {
            Ok(e) => argon2_encoded(password@, salt@) == Some(e@),
            Err(err) => err == PasswordError::HashFailed && argon2_encoded(
                password@,
                salt@,
            ) is None,
        },
        salt@.len() < MIN_SALT_BYTES ==> r is Err,
        salt_in_range(salt@) && password_in_range(password@) ==> r is Ok,
        r matches Ok(e) ==> password_in_range(password@) ==> verification(e@, password@) == Ok::<
            bool,
            PasswordError,
        >(true),
        r matches Ok(e) ==> verifies_exactly(e@, salt@),
{
    match argon2_hash_encoded(password, salt) {
        Some(e) => {
            assert(verifies_by_salt(e@, salt@));
            Ok(e)
        },
        None => Err(PasswordError::HashFailed),
    }
}

/// Verifies `password` against the encoded hash `encoded`.
pub fn verify_password(encoded: &str, password: &str) -> (r: Result<bool, PasswordError>)
    ensures
        r == verification(encoded@, password@),
{
    match argon2_verify_encoded(encoded, password) {
        Some(b) => Ok(b),
        None => Err(PasswordError::HashFormatError),
    }
}

} // verus!
